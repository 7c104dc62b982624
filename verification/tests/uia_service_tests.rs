use cn2en::{
    target_search_stages, AncestorClimb, AncestorStep, DescendantSearch, ElementReading,
    FocusedTextSnapshot, SearchStage, SearchStep, StageOutcome, TargetDecision, TargetSearch,
    TextPatternReading, TreeView, UiaService, WritePattern,
};

fn reading(pid: u32, text: &str) -> ElementReading {
    ElementReading {
        process_id: Ok(pid),
        text: Ok(text.to_string()),
        runtime_id: Ok(vec![1, 2, 3]),
        automation_id: "aid".to_string(),
        class_name: "Edit".to_string(),
        control_type: "Some(Edit)".to_string(),
    }
}

#[test]
fn text_pattern_preference() {
    let r = UiaService::read_text_from_element(Some(Ok("v".into())), Some(Ok("l".into())), None);
    assert_eq!(r, Ok("v".to_string()));
    let r = UiaService::read_text_from_element(Some(Ok("".into())), Some(Ok("l".into())), None);
    assert_eq!(r, Ok("l".to_string()));
    let r = UiaService::read_text_from_element(
        None,
        Some(Ok("".into())),
        Some(TextPatternReading::Text { text: "".into() }),
    );
    assert_eq!(r, Ok("".to_string()));
    let r = UiaService::read_text_from_element(None, None, None);
    assert_eq!(r, Err("focused element does not expose readable text via UIA".to_string()));
}

#[test]
fn text_pattern_errors() {
    assert_eq!(
        UiaService::read_text_from_element(Some(Err("e1".into())), Some(Ok("l".into())), None),
        Err("Failed to read ValuePattern: e1".to_string())
    );
    assert_eq!(
        UiaService::read_text_from_element(None, Some(Err("e2".into())), None),
        Err("Failed to read LegacyIAccessible value: e2".to_string())
    );
    assert_eq!(
        UiaService::read_text_from_element(
            None,
            None,
            Some(TextPatternReading::DocumentRangeFailed { error: "e3".into() })
        ),
        Err("Failed to create TextPattern document range: e3".to_string())
    );
    assert_eq!(
        UiaService::read_text_from_element(
            None,
            None,
            Some(TextPatternReading::GetTextFailed { error: "e4".into() })
        ),
        Err("Failed to read TextPattern text: e4".to_string())
    );
}

#[test]
fn writability_and_candidates() {
    assert!(UiaService::is_writable_element(&Some(Ok(false)), false));
    assert!(!UiaService::is_writable_element(&Some(Ok(true)), false));
    assert!(UiaService::is_writable_element(&Some(Ok(true)), true));
    assert!(!UiaService::is_writable_element(&Some(Err("x".into())), false));
    assert!(UiaService::is_writable_element(&None, true));
    assert!(UiaService::is_candidate_element(&Ok("text".into()), false));
    assert!(!UiaService::is_candidate_element(&Ok("  ".into()), false));
    assert!(UiaService::is_candidate_element(&Err("x".into()), true));
    assert!(UiaService::focused_is_target(&Ok("".into()), false));
    assert!(!UiaService::focused_is_target(&Err("x".into()), false));
    assert_eq!(
        UiaService::no_text_target_error(),
        "focused element does not expose readable text via UIA"
    );
}

#[test]
fn write_pattern_choice() {
    assert_eq!(UiaService::choose_write_pattern(Some(Ok(false)), true), Ok(WritePattern::Value));
    assert_eq!(
        UiaService::choose_write_pattern(Some(Ok(true)), true),
        Ok(WritePattern::LegacyIAccessible)
    );
    assert_eq!(
        UiaService::choose_write_pattern(None, false),
        Err("focused element is readable but not writable via UIA".to_string())
    );
    assert_eq!(
        UiaService::choose_write_pattern(Some(Err("boom".into())), true),
        Err("Failed to inspect ValuePattern readonly state: boom".to_string())
    );
    assert_eq!(UiaService::write_outcome(WritePattern::Value, Ok(())), Ok(()));
    assert_eq!(
        UiaService::write_outcome(WritePattern::Value, Err("x".into())),
        Err("Failed to set ValuePattern value: x".to_string())
    );
    assert_eq!(
        UiaService::write_outcome(WritePattern::LegacyIAccessible, Err("y".into())),
        Err("Failed to set LegacyIAccessible value: y".to_string())
    );
}

#[test]
fn snapshot_checks() {
    let svc = UiaService::new();
    let s = svc.read_focused_text(10, reading(20, "你好")).unwrap();
    assert_eq!(s.process_id, 20);
    assert_eq!(s.text, "你好");
    assert_eq!(s.runtime_id, vec![1, 2, 3]);
    assert_eq!(s.class_name, "Edit");
    assert_eq!(
        svc.read_focused_text(20, reading(20, "你好")).unwrap_err(),
        "focused element belongs to cn2en settings window"
    );
    assert_eq!(svc.read_focused_text(10, reading(20, "  ")).unwrap_err(), "focused element text is empty");
    let mut r = reading(20, "x");
    r.process_id = Err("denied".into());
    assert_eq!(svc.read_focused_text(10, r).unwrap_err(), "Unable to read process id: denied");
    let mut r = reading(20, "x");
    r.runtime_id = Err("gone".into());
    assert_eq!(svc.read_focused_text(10, r).unwrap_err(), "Unable to read runtime id: gone");
    let mut r = reading(20, "x");
    r.text = Err("no text".into());
    assert_eq!(svc.read_focused_text(10, r).unwrap_err(), "no text");
}

#[test]
fn replace_checks() {
    let svc = UiaService::new();
    let snap = FocusedTextSnapshot {
        runtime_id: vec![1, 2],
        process_id: 5,
        automation_id: String::new(),
        class_name: String::new(),
        control_type: String::new(),
        text: "你好".to_string(),
    };
    assert_eq!(svc.replace_focused_text(&snap, Ok(vec![1, 2]), Ok("你好".into())), Ok(()));
    assert_eq!(
        svc.replace_focused_text(&snap, Ok(vec![1, 3]), Ok("你好".into())),
        Err("focused element changed during translation".to_string())
    );
    assert_eq!(
        svc.replace_focused_text(&snap, Ok(vec![1, 2]), Ok("你".into())),
        Err("focused element text changed during translation".to_string())
    );
    assert_eq!(
        svc.replace_focused_text(&snap, Err("x".into()), Ok("你好".into())),
        Err("Unable to read runtime id: x".to_string())
    );
    assert_eq!(
        svc.replace_focused_text(&snap, Ok(vec![1, 2]), Err("unreadable".into())),
        Err("unreadable".to_string())
    );
}

#[test]
fn breadth_first_search_with_depth_limit() {
    // Tree: root -> [1, 2]; 1 -> [3]; 3 -> [4]; 4 -> [5]; 5 -> [6]
    let children = |id: usize| -> Vec<usize> {
        match id {
            1 => vec![3],
            3 => vec![4],
            4 => vec![5],
            5 => vec![6],
            _ => vec![],
        }
    };
    let mut search = DescendantSearch::new(vec![1, 2]);
    let mut visited = Vec::new();
    while let Some((id, depth)) = search.next() {
        visited.push((id, depth));
        search.expand(depth, children(id));
    }
    assert_eq!(visited, vec![(1, 1), (2, 1), (3, 2), (4, 3), (5, 4)]);
}

fn run_search(
    roots: Vec<usize>,
    children: impl Fn(usize) -> Vec<usize>,
    candidate: impl Fn(usize) -> bool,
) -> (Option<usize>, Vec<usize>) {
    let mut search = DescendantSearch::new(roots);
    let mut visited = Vec::new();
    let mut step = search.begin();
    loop {
        match step {
            SearchStep::Found { id } => return (Some(id), visited),
            SearchStep::NotFound => return (None, visited),
            SearchStep::Visit { id, depth } => {
                visited.push(id);
                step = search.report(id, depth, candidate(id), children(id));
            }
        }
    }
}

fn tree(id: usize) -> Vec<usize> {
    // root -> [1, 2]; 1 -> [3, 4]; 2 -> [5]; 3 -> [6]; 6 -> [7]; 7 -> [8]
    match id {
        1 => vec![3, 4],
        2 => vec![5],
        3 => vec![6],
        6 => vec![7],
        7 => vec![8],
        _ => vec![],
    }
}

#[test]
fn stepwise_search_stops_at_first_candidate_in_breadth_first_order() {
    let (found, visited) = run_search(vec![1, 2], tree, |id| id == 4 || id == 5);
    assert_eq!(found, Some(4));
    assert_eq!(visited, vec![1, 2, 3, 4]);
}

#[test]
fn stepwise_search_respects_depth_limit() {
    // 8 lies five levels down: never visited.
    let (found, visited) = run_search(vec![1, 2], tree, |id| id == 8);
    assert_eq!(found, None);
    assert_eq!(visited, vec![1, 2, 3, 4, 5, 6, 7]);
    let (found, _) = run_search(vec![1, 2], tree, |id| id == 7);
    assert_eq!(found, Some(7));
}

#[test]
fn stepwise_search_without_children() {
    let (found, visited) = run_search(vec![], tree, |_| true);
    assert_eq!(found, None);
    assert!(visited.is_empty());
}

#[test]
fn search_stage_order() {
    assert_eq!(
        target_search_stages(),
        vec![
            SearchStage::Below(TreeView::Control),
            SearchStage::Above(TreeView::Control),
            SearchStage::Below(TreeView::Raw),
            SearchStage::Above(TreeView::Raw),
        ]
    );
}

#[test]
fn ancestor_climb_is_bounded() {
    let mut climb = AncestorClimb::new();
    let mut parents = 0;
    while climb.may_climb() {
        assert_eq!(climb.on_parent(true, false), AncestorStep::SearchBelowParent);
        parents += 1;
        let next = climb.after_search_below(false);
        if parents < 4 {
            assert_eq!(next, AncestorStep::ClimbFurther);
        } else {
            assert_eq!(next, AncestorStep::GiveUp);
        }
    }
    assert_eq!(parents, 4);
}

#[test]
fn ancestor_climb_outcomes() {
    let mut climb = AncestorClimb::new();
    assert_eq!(climb.on_parent(false, true), AncestorStep::GiveUp);
    assert_eq!(climb.on_parent(true, true), AncestorStep::TakeParent);
    assert_eq!(climb.after_search_below(true), AncestorStep::TakeBelow);
}

#[test]
fn target_search_runs_stages_in_order_then_gives_up() {
    let (mut search, first) = TargetSearch::begin();
    assert_eq!(first, TargetDecision::Run(SearchStage::Below(TreeView::Control)));
    assert_eq!(
        search.on_outcome(StageOutcome::NotFound),
        TargetDecision::Run(SearchStage::Above(TreeView::Control))
    );
    assert_eq!(
        search.on_outcome(StageOutcome::ViewUnavailable),
        TargetDecision::Run(SearchStage::Below(TreeView::Raw))
    );
    assert_eq!(
        search.on_outcome(StageOutcome::NotFound),
        TargetDecision::Run(SearchStage::Above(TreeView::Raw))
    );
    assert_eq!(search.on_outcome(StageOutcome::NotFound), TargetDecision::GiveUp);
}

#[test]
fn target_search_takes_first_find() {
    let (mut search, _) = TargetSearch::begin();
    assert_eq!(search.on_outcome(StageOutcome::Found), TargetDecision::TakeFound);
    let (mut search, _) = TargetSearch::begin();
    search.on_outcome(StageOutcome::ViewUnavailable);
    assert_eq!(search.on_outcome(StageOutcome::Found), TargetDecision::TakeFound);
}

#[test]
fn pattern_readings_that_settle() {
    assert!(UiaService::reading_settles_text(&Some(Ok("x".into()))));
    assert!(UiaService::reading_settles_text(&Some(Err("e".into()))));
    assert!(!UiaService::reading_settles_text(&Some(Ok("".into()))));
    assert!(!UiaService::reading_settles_text(&None));
}
