//! The UI Automation decisions: which of an element's text patterns gives
//! its text, whether it can be written, whether a focused element may be
//! captured or overwritten, and the bounded breadth-first search for a text
//! control around the focused element. Reading the automation tree is left
//! to the caller.

use vstd::prelude::*;

use crate::focused_text::FocusedTextSnapshot;
use crate::text::{is_blank, is_blank_str, prefixed, result_view};

verus! {

/// How deep below an element the search for a text control goes.
pub const SEARCH_MAX_DEPTH: usize = 4;

/// How many ancestors of the focused element are searched.
pub const ANCESTOR_SEARCH_LIMIT: usize = 4;

/// What reading an element's TextPattern gave.
#[derive(Debug, Clone)]
pub enum TextPatternReading {
    /// The document range could not be obtained.
    DocumentRangeFailed { error: String },
    /// The range's text could not be read.
    GetTextFailed { error: String },
    /// The range's text.
    Text { text: String },
}

/// The error when an element exposes no readable text.
pub open spec fn no_readable_text() -> Seq<char> {
    "focused element does not expose readable text via UIA"@
}

/// An element's text, from its patterns in order of preference: a non-empty
/// ValuePattern value, else a non-empty LegacyIAccessible value, else the
/// TextPattern's document text. Each argument is `None` when the element
/// lacks that pattern; a failed read ends the search with its error.
pub open spec fn element_text(
    value: Option<Result<String, String>>,
    legacy: Option<Result<String, String>>,
    text_pattern: Option<TextPatternReading>,
) -> Result<Seq<char>, Seq<char>> {
    match value {
        Some(Err(e)) => Err("Failed to read ValuePattern: "@ + e@),
        Some(Ok(v)) if v@.len() > 0 => Ok(v@),
        _ => match legacy {
            Some(Err(e)) => Err("Failed to read LegacyIAccessible value: "@ + e@),
            Some(Ok(v)) if v@.len() > 0 => Ok(v@),
            _ => match text_pattern {
                Some(TextPatternReading::DocumentRangeFailed { error }) => Err(
                    "Failed to create TextPattern document range: "@ + error@,
                ),
                Some(TextPatternReading::GetTextFailed { error }) => Err(
                    "Failed to read TextPattern text: "@ + error@,
                ),
                Some(TextPatternReading::Text { text }) => Ok(text@),
                None => Err(no_readable_text()),
            },
        },
    }
}

/// Whether a pattern's reading settles the element's text on its own (a
/// failed read, or a non-empty value), so later patterns need not be read.
pub open spec fn reading_settles(r: Option<Result<String, String>>) -> bool {
    match r {
        Some(Err(_)) => true,
        Some(Ok(v)) => v@.len() > 0,
        None => false,
    }
}

/// Patterns after one that settles the text are never consulted, so they
/// need not be read: the element's text is the same with them left out.
pub proof fn law_later_patterns_unread(
    value: Option<Result<String, String>>,
    legacy: Option<Result<String, String>>,
    text_pattern: Option<TextPatternReading>,
)
    ensures
        reading_settles(value) ==> element_text(value, legacy, text_pattern) == element_text(
            value,
            None,
            None,
        ),
        !reading_settles(value) && reading_settles(legacy) ==> element_text(
            value,
            legacy,
            text_pattern,
        ) == element_text(value, legacy, None),
{
}

/// Which pattern a write goes through.
#[derive(Debug, Clone, Copy, PartialEq, Eq, Structural)]
pub enum WritePattern {
    Value,
    LegacyIAccessible,
}

/// The pattern to write through: the ValuePattern when it is not read-only,
/// else the LegacyIAccessible pattern when there is one. `value_readonly` is
/// `None` when the element lacks a ValuePattern.
pub open spec fn write_pattern(value_readonly: Option<Result<bool, String>>, has_legacy: bool) -> Result<
    WritePattern,
    Seq<char>,
> {
    match value_readonly {
        Some(Err(e)) => Err("Failed to inspect ValuePattern readonly state: "@ + e@),
        Some(Ok(false)) => Ok(WritePattern::Value),
        _ => if has_legacy {
            Ok(WritePattern::LegacyIAccessible)
        } else {
            Err("focused element is readable but not writable via UIA"@)
        },
    }
}

/// A write goes through the ValuePattern exactly when it is there and known
/// not to be read-only; otherwise through the LegacyIAccessible pattern
/// whenever the element has one. So every writable element whose read-only
/// state could be inspected gets a pattern, and only an element with neither
/// is refused.
pub proof fn law_write_pattern_choice(value_readonly: Option<Result<bool, String>>, has_legacy: bool)
    ensures
        write_pattern(value_readonly, has_legacy) == Ok::<WritePattern, Seq<char>>(
            WritePattern::Value,
        ) <==> value_readonly == Some(Ok::<bool, String>(false)),
        write_pattern(value_readonly, has_legacy) == Ok::<WritePattern, Seq<char>>(
            WritePattern::LegacyIAccessible,
        ) <==> ((value_readonly is None || value_readonly == Some(Ok::<bool, String>(true)))
            && has_legacy),
        write_pattern(value_readonly, has_legacy) is Ok <==> (!(value_readonly matches Some(Err(_)))
            && (value_readonly == Some(Ok::<bool, String>(false)) || has_legacy)),
{
}

/// What was read off the element chosen as the text target.
#[derive(Debug)]
pub struct ElementReading {
    pub process_id: Result<u32, String>,
    pub text: Result<String, String>,
    pub runtime_id: Result<Vec<i32>, String>,
    pub automation_id: String,
    pub class_name: String,
    pub control_type: String,
}

/// The UI Automation service (it holds no state).
pub struct UiaService;

/// Whether two runtime ids are the same.
fn same_runtime_id(a: &Vec<i32>, b: &Vec<i32>) -> (r: bool)
    ensures
        r == (a@ == b@),
{
    if a.len() != b.len() {
        return false;
    }
    let n = a.len();
    let mut i: usize = 0;
    while i < n
        invariant
            n == a@.len(),
            n == b@.len(),
            i <= n,
            forall|j: int| 0 <= j < i ==> a@[j] == b@[j],
        decreases n - i,
    {
        if a[i] != b[i] {
            return false;
        }
        i = i + 1;
    }
    assert(a@ =~= b@);
    true
}

impl UiaService {
    /// The service.
    pub fn new() -> (r: Self) {
        UiaService
    }

    /// An element's text, as `element_text` describes.
    pub fn read_text_from_element(
        value: Option<Result<String, String>>,
        legacy: Option<Result<String, String>>,
        text_pattern: Option<TextPatternReading>,
    ) -> (r: Result<String, String>)
        ensures
            result_view(r) == element_text(value, legacy, text_pattern),
    {
        match value {
            Some(Err(e)) => {
                return Err(prefixed("Failed to read ValuePattern: ", e.as_str()));
            },
            Some(Ok(v)) => {
                if !v.as_str().is_empty() {
                    return Ok(v);
                }
            },
            None => {},
        }
        match legacy {
            Some(Err(e)) => {
                return Err(prefixed("Failed to read LegacyIAccessible value: ", e.as_str()));
            },
            Some(Ok(v)) => {
                if !v.as_str().is_empty() {
                    return Ok(v);
                }
            },
            None => {},
        }
        match text_pattern {
            Some(TextPatternReading::DocumentRangeFailed { error }) => Err(
                prefixed("Failed to create TextPattern document range: ", error.as_str()),
            ),
            Some(TextPatternReading::GetTextFailed { error }) => Err(
                prefixed("Failed to read TextPattern text: ", error.as_str()),
            ),
            Some(TextPatternReading::Text { text }) => Ok(text),
            None => Err(
                String::from_str("focused element does not expose readable text via UIA"),
            ),
        }
    }

    /// Whether a pattern's reading settles the element's text, so that the
    /// patterns after it need not be read.
    pub fn reading_settles_text(r: &Option<Result<String, String>>) -> (b: bool)
        ensures
            b == reading_settles(*r),
    {
        match r {
            Some(Err(_)) => true,
            Some(Ok(v)) => !v.as_str().is_empty(),
            None => false,
        }
    }

    /// Whether an element can be written: its ValuePattern is known not to
    /// be read-only, or it has a LegacyIAccessible pattern.
    pub fn is_writable_element(value_readonly: &Option<Result<bool, String>>, has_legacy: bool) -> (r:
        bool)
        ensures
            r == (*value_readonly == Some(Ok::<bool, String>(false)) || has_legacy),
    {
        match value_readonly {
            Some(Ok(false)) => true,
            _ => has_legacy,
        }
    }

    /// Whether the search may stop at an element: it has non-blank text, or
    /// it can be written.
    pub fn is_candidate_element(text: &Result<String, String>, writable: bool) -> (r: bool)
        ensures
            r == ((text matches Ok(t) && !is_blank(t@)) || writable),
    {
        match text {
            Ok(t) => !is_blank_str(t.as_str()) || writable,
            Err(_) => writable,
        }
    }

    /// Whether the focused element itself is the text target: its text can
    /// be read (even if blank), or it can be written.
    pub fn focused_is_target(text: &Result<String, String>, writable: bool) -> (r: bool)
        ensures
            r == (text is Ok || writable),
    {
        text.is_ok() || writable
    }

    /// The error when no text target is found around the focused element.
    pub fn no_text_target_error() -> (r: String)
        ensures
            r@ == no_readable_text(),
    {
        String::from_str("focused element does not expose readable text via UIA")
    }

    /// The pattern a write goes through, as `write_pattern` describes.
    pub fn choose_write_pattern(value_readonly: Option<Result<bool, String>>, has_legacy: bool) -> (r:
        Result<WritePattern, String>)
        ensures
            match (r, write_pattern(value_readonly, has_legacy)) {
                (Ok(p), Ok(q)) => p == q,
                (Err(e), Err(f)) => e@ == f,
                _ => false,
            },
    {
        match value_readonly {
            Some(Err(e)) => Err(prefixed("Failed to inspect ValuePattern readonly state: ", e.as_str())),
            Some(Ok(false)) => Ok(WritePattern::Value),
            _ => if has_legacy {
                Ok(WritePattern::LegacyIAccessible)
            } else {
                Err(String::from_str("focused element is readable but not writable via UIA"))
            },
        }
    }

    /// The result of writing through `pattern`: success, or the write's
    /// error with the pattern named.
    pub fn write_outcome(pattern: WritePattern, written: Result<(), String>) -> (r: Result<(), String>)
        ensures
            match written {
                Ok(()) => r is Ok,
                Err(e) => r matches Err(m) && m@ == match pattern {
                    WritePattern::Value => "Failed to set ValuePattern value: "@ + e@,
                    WritePattern::LegacyIAccessible => "Failed to set LegacyIAccessible value: "@
                        + e@,
                },
            },
    {
        match written {
            Ok(()) => Ok(()),
            Err(e) => match pattern {
                WritePattern::Value => Err(prefixed("Failed to set ValuePattern value: ", e.as_str())),
                WritePattern::LegacyIAccessible => Err(
                    prefixed("Failed to set LegacyIAccessible value: ", e.as_str()),
                ),
            },
        }
    }

    /// The snapshot of the focused text target, from what was read off it.
    /// It fails when its process id cannot be read, when it belongs to this
    /// process (the settings window), when its text cannot be read or is
    /// blank, or when its runtime id cannot be read; in that order.
    pub fn read_focused_text(&self, own_process_id: u32, reading: ElementReading) -> (r: Result<
        FocusedTextSnapshot,
        String,
    >)
        ensures
            r matches Ok(s) ==> s.process_id != own_process_id && !is_blank(s.text@),
            match reading.process_id {
                Err(e) => r matches Err(m) && m@ == "Unable to read process id: "@ + e@,
                Ok(pid) => if pid == own_process_id {
                    r matches Err(m) && m@ == "focused element belongs to cn2en settings window"@
                } else {
                    match reading.text {
                        Err(e) => r matches Err(m) && m@ == e@,
                        Ok(t) => if is_blank(t@) {
                            r matches Err(m) && m@ == "focused element text is empty"@
                        } else {
                            match reading.runtime_id {
                                Err(e) => r matches Err(m) && m@ == "Unable to read runtime id: "@
                                    + e@,
                                Ok(id) => r matches Ok(s) && s.runtime_id@ == id@ && s.process_id
                                    == pid && s.text@ == t@ && s.automation_id@
                                    == reading.automation_id@ && s.class_name@
                                    == reading.class_name@ && s.control_type@
                                    == reading.control_type@,
                            }
                        },
                    }
                },
            },
    {
        let ElementReading { process_id, text, runtime_id, automation_id, class_name, control_type } =
            reading;
        let process_id = match process_id {
            Err(e) => {
                return Err(prefixed("Unable to read process id: ", e.as_str()));
            },
            Ok(pid) => pid,
        };
        if process_id == own_process_id {
            return Err(String::from_str("focused element belongs to cn2en settings window"));
        }
        let text = match text {
            Err(e) => {
                return Err(e);
            },
            Ok(t) => t,
        };
        if is_blank_str(text.as_str()) {
            return Err(String::from_str("focused element text is empty"));
        }
        let runtime_id = match runtime_id {
            Err(e) => {
                return Err(prefixed("Unable to read runtime id: ", e.as_str()));
            },
            Ok(id) => id,
        };
        Ok(
            FocusedTextSnapshot {
                runtime_id,
                process_id,
                automation_id,
                class_name,
                control_type,
                text,
            },
        )
    }

    /// Whether the focused element may be overwritten: it must be the element
    /// of `snapshot` (same runtime id) and still hold the same text. `Ok`
    /// means the new text may be written.
    pub fn replace_focused_text(
        &self,
        snapshot: &FocusedTextSnapshot,
        runtime_id: Result<Vec<i32>, String>,
        current_text: Result<String, String>,
    ) -> (r: Result<(), String>)
        ensures
            match runtime_id {
                Err(e) => r matches Err(m) && m@ == "Unable to read runtime id: "@ + e@,
                Ok(id) => if id@ != snapshot.runtime_id@ {
                    r matches Err(m) && m@ == "focused element changed during translation"@
                } else {
                    match current_text {
                        Err(e) => r matches Err(m) && m@ == e@,
                        Ok(t) => if t@ != snapshot.text@ {
                            r matches Err(m) && m@
                                == "focused element text changed during translation"@
                        } else {
                            r is Ok
                        },
                    }
                },
            },
    {
        let id = match runtime_id {
            Err(e) => {
                return Err(prefixed("Unable to read runtime id: ", e.as_str()));
            },
            Ok(id) => id,
        };
        if !same_runtime_id(&id, &snapshot.runtime_id) {
            return Err(String::from_str("focused element changed during translation"));
        }
        let current = match current_text {
            Err(e) => {
                return Err(e);
            },
            Ok(t) => t,
        };
        if !(current == snapshot.text) {
            return Err(String::from_str("focused element text changed during translation"));
        }
        Ok(())
    }
}

/// The breadth-first search below an element, by view: the elements still
/// to visit, each with its depth below the root.
pub struct DescendantSearch {
    queue: Vec<(usize, usize)>,
    head: usize,
}

impl View for DescendantSearch {
    type V = Seq<(usize, usize)>;

    closed spec fn view(&self) -> Seq<(usize, usize)> {
        self.queue@.skip(self.head as int)
    }
}

/// Every element waiting to be visited lies 1 to `SEARCH_MAX_DEPTH` levels
/// below the root.
pub open spec fn depths_in_bounds(pending: Seq<(usize, usize)>) -> bool {
    forall|i: int| 0 <= i < pending.len() ==> 1 <= #[trigger] pending[i].1 <= SEARCH_MAX_DEPTH
}

/// Children to enqueue, each one level deeper than its parent.
pub open spec fn at_depth(children: Seq<usize>, depth: usize) -> Seq<(usize, usize)> {
    children.map_values(|c: usize| (c, depth))
}

/// The pending elements once the element at `depth` has been visited
/// without being a candidate: its children go to the back, one level deeper,
/// unless it is at the depth limit.
pub open spec fn queued_after(pending: Seq<(usize, usize)>, depth: usize, children: Seq<usize>) -> Seq<
    (usize, usize),
> {
    if depth >= SEARCH_MAX_DEPTH {
        pending
    } else {
        pending + at_depth(children, (depth + 1) as usize)
    }
}

/// What the search does next with the pending elements `pending`.
#[derive(Debug, Clone, Copy, PartialEq, Eq, Structural)]
pub enum SearchStep {
    /// Look at element `id`, `depth` levels below the root.
    Visit { id: usize, depth: usize },
    /// Element `id` is the one sought.
    Found { id: usize },
    /// No element within the depth limit is a candidate.
    NotFound,
}

/// Hand out the front of `pending`, or report that nothing is left.
pub open spec fn take_next(pending: Seq<(usize, usize)>) -> (Seq<(usize, usize)>, SearchStep) {
    if pending.len() == 0 {
        (pending, SearchStep::NotFound)
    } else {
        (pending.drop_first(), SearchStep::Visit { id: pending[0].0, depth: pending[0].1 })
    }
}

/// The search's step after visiting element `id` at `depth`: stop there if
/// it is a candidate, else queue its children (within the limit) and hand
/// out the next element.
pub open spec fn report_step(
    pending: Seq<(usize, usize)>,
    id: usize,
    depth: usize,
    is_candidate: bool,
    children: Seq<usize>,
) -> (Seq<(usize, usize)>, SearchStep) {
    if is_candidate {
        (pending, SearchStep::Found { id })
    } else {
        take_next(queued_after(pending, depth, children))
    }
}

/// The first candidate, with its depth, in breadth-first order from the
/// pending elements, over a tree given by `children` and `candidate`,
/// looking at no more than `fuel` elements.
pub open spec fn bfs_first(
    pending: Seq<(usize, usize)>,
    children: spec_fn(usize) -> Seq<usize>,
    candidate: spec_fn(usize) -> bool,
    fuel: nat,
) -> Option<(usize, usize)>
    decreases fuel,
{
    if fuel == 0 || pending.len() == 0 {
        None
    } else {
        let id = pending[0].0;
        let depth = pending[0].1;
        if candidate(id) {
            Some((id, depth))
        } else {
            bfs_first(
                queued_after(pending.drop_first(), depth, children(id)),
                children,
                candidate,
                (fuel - 1) as nat,
            )
        }
    }
}

impl DescendantSearch {
    /// The internal invariant: the head stays within the queue.
    pub closed spec fn wf(&self) -> bool {
        self.head <= self.queue@.len()
    }

    /// A search that starts with the root's children, at depth 1.
    pub fn new(children: Vec<usize>) -> (r: Self)
        ensures
            r.wf(),
            r@ == at_depth(children@, 1),
            depths_in_bounds(r@),
    {
        let mut queue: Vec<(usize, usize)> = Vec::new();
        let n = children.len();
        let mut i: usize = 0;
        while i < n
            invariant
                n == children@.len(),
                i <= n,
                queue@ == at_depth(children@.take(i as int), 1),
            decreases n - i,
        {
            queue.push((children[i], 1));
            assert(at_depth(children@.take(i + 1), 1) =~= at_depth(children@.take(i as int), 1).push(
                (children@[i as int], 1usize),
            ));
            i = i + 1;
        }
        assert(children@.take(n as int) =~= children@);
        let r = DescendantSearch { queue, head: 0 };
        assert(r@ =~= queue@);
        r
    }

    /// The next element to visit, with its depth; `None` when all have been
    /// visited.
    pub fn next(&mut self) -> (r: Option<(usize, usize)>)
        requires
            old(self).wf(),
        ensures
            final(self).wf(),
            old(self)@.len() == 0 ==> r is None && final(self)@ == old(self)@,
            old(self)@.len() > 0 ==> r == Some(old(self)@[0]) && final(self)@ == old(self)@.drop_first(),
    {
        if self.head < self.queue.len() {
            let item = self.queue[self.head];
            let ghost before = self@;
            self.head = self.head + 1;
            assert(self@ =~= before.drop_first());
            Some(item)
        } else {
            None
        }
    }

    /// After visiting an element at `depth` that was not a candidate: queue
    /// its children one level deeper, unless it is at the depth limit.
    pub fn expand(&mut self, depth: usize, children: Vec<usize>)
        requires
            old(self).wf(),
            1 <= depth <= SEARCH_MAX_DEPTH,
        ensures
            final(self).wf(),
            final(self)@ == if depth >= SEARCH_MAX_DEPTH {
                old(self)@
            } else {
                old(self)@ + at_depth(children@, (depth + 1) as usize)
            },
    {
        if depth >= SEARCH_MAX_DEPTH {
            return;
        }
        let ghost start = self@;
        let n = children.len();
        let mut i: usize = 0;
        while i < n
            invariant
                n == children@.len(),
                i <= n,
                depth < SEARCH_MAX_DEPTH,
                self.head <= self.queue@.len(),
                self@ == start + at_depth(children@.take(i as int), (depth + 1) as usize),
            decreases n - i,
        {
            let ghost before = self@;
            self.queue.push((children[i], depth + 1));
            assert(self@ =~= before.push((children@[i as int], (depth + 1) as usize)));
            assert(at_depth(children@.take(i + 1), (depth + 1) as usize) =~= at_depth(
                children@.take(i as int),
                (depth + 1) as usize,
            ).push((children@[i as int], (depth + 1) as usize)));
            i = i + 1;
        }
        assert(children@.take(n as int) =~= children@);
    }
    /// The first element to visit, or `NotFound` when the root has no
    /// children.
    pub fn begin(&mut self) -> (r: SearchStep)
        requires
            old(self).wf(),
        ensures
            final(self).wf(),
            (final(self)@, r) == take_next(old(self)@),
    {
        match self.next() {
            Some((id, depth)) => SearchStep::Visit { id, depth },
            None => SearchStep::NotFound,
        }
    }

    /// After visiting element `id` at `depth` (the one last handed out):
    /// stop if it is a candidate; otherwise queue its `children` one level
    /// deeper (unless at the depth limit, where they are ignored) and hand
    /// out the next element, or `NotFound` when none is left.
    pub fn report(&mut self, id: usize, depth: usize, is_candidate: bool, children: Vec<usize>) -> (r:
        SearchStep)
        requires
            old(self).wf(),
            1 <= depth <= SEARCH_MAX_DEPTH,
        ensures
            final(self).wf(),
            (final(self)@, r) == report_step(old(self)@, id, depth, is_candidate, children@),
    {
        if is_candidate {
            return SearchStep::Found { id };
        }
        self.expand(depth, children);
        match self.next() {
            Some((next_id, next_depth)) => SearchStep::Visit { id: next_id, depth: next_depth },
            None => SearchStep::NotFound,
        }
    }
}

/// The search never goes deeper than the limit: starting from the root's
/// children and expanding only elements it handed out, every element waiting
/// to be visited lies 1 to `SEARCH_MAX_DEPTH` levels down.
pub proof fn law_search_depth_bounded(
    pending: Seq<(usize, usize)>,
    depth: usize,
    children: Seq<usize>,
)
    requires
        depths_in_bounds(pending),
        1 <= depth <= SEARCH_MAX_DEPTH,
    ensures
        pending.len() > 0 ==> depths_in_bounds(pending.drop_first()),
        depths_in_bounds(
            if depth >= SEARCH_MAX_DEPTH {
                pending
            } else {
                pending + at_depth(children, (depth + 1) as usize)
            },
        ),
{
    if pending.len() > 0 {
        assert forall|i: int| 0 <= i < pending.drop_first().len() implies 1
            <= #[trigger] pending.drop_first()[i].1 <= SEARCH_MAX_DEPTH by {
            assert(pending.drop_first()[i] == pending[i + 1]);
        }
    }
    if depth < SEARCH_MAX_DEPTH {
        let grown = pending + at_depth(children, (depth + 1) as usize);
        assert forall|i: int| 0 <= i < grown.len() implies 1 <= #[trigger] grown[i].1
            <= SEARCH_MAX_DEPTH by {
            if i >= pending.len() {
                assert(grown[i] == at_depth(children, (depth + 1) as usize)[i - pending.len()]);
            }
        }
    }
}

/// The search visits elements in breadth-first order: an element is handed
/// out only after everything queued before it, and children go behind all
/// elements already waiting.
pub proof fn law_children_queued_behind(
    pending: Seq<(usize, usize)>,
    depth: usize,
    children: Seq<usize>,
)
    requires
        depth < SEARCH_MAX_DEPTH,
    ensures
        (pending + at_depth(children, (depth + 1) as usize)).take(pending.len() as int) == pending,
{
    assert((pending + at_depth(children, (depth + 1) as usize)).take(pending.len() as int)
        =~= pending);
}

/// The stepwise search computes the breadth-first first candidate: after
/// visiting `(id, depth)` with `rest` pending, the report's outcome agrees
/// with `bfs_first` from `(id, depth)` followed by `rest` (stopping at a
/// candidate, or continuing from the next element handed out).
pub proof fn law_report_follows_bfs(
    rest: Seq<(usize, usize)>,
    id: usize,
    depth: usize,
    children: spec_fn(usize) -> Seq<usize>,
    candidate: spec_fn(usize) -> bool,
    fuel: nat,
)
    ensures
        ({
            let (next_pending, step) = report_step(rest, id, depth, candidate(id), children(id));
            let from_here = bfs_first(seq![(id, depth)] + rest, children, candidate, fuel + 1);
            match step {
                SearchStep::Found { id: f } => f == id && from_here == Some((id, depth)),
                SearchStep::NotFound => from_here == None::<(usize, usize)>,
                SearchStep::Visit { id: i, depth: e } => from_here == bfs_first(
                    seq![(i, e)] + next_pending,
                    children,
                    candidate,
                    fuel,
                ),
            }
        }),
{
    let start = seq![(id, depth)] + rest;
    assert(start[0] == (id, depth));
    assert(start.drop_first() =~= rest);
    let queued = queued_after(rest, depth, children(id));
    assert(bfs_first(start, children, candidate, fuel + 1) == if candidate(id) {
        Some((id, depth))
    } else {
        bfs_first(queued, children, candidate, fuel)
    });
    if !candidate(id) && queued.len() > 0 {
        let head = (queued[0].0, queued[0].1);
        assert(head == queued[0]);
        assert(seq![head] + queued.drop_first() =~= queued);
    }
}

/// What the search finds is a candidate lying 1 to `SEARCH_MAX_DEPTH`
/// levels below the root.
pub proof fn law_bfs_finds_candidate_within_depth(
    pending: Seq<(usize, usize)>,
    children: spec_fn(usize) -> Seq<usize>,
    candidate: spec_fn(usize) -> bool,
    fuel: nat,
)
    requires
        depths_in_bounds(pending),
    ensures
        bfs_first(pending, children, candidate, fuel) matches Some((id, depth)) ==> candidate(id) && 1
            <= depth <= SEARCH_MAX_DEPTH,
    decreases fuel,
{
    if fuel > 0 && pending.len() > 0 {
        let id = pending[0].0;
        let depth = pending[0].1;
        assert(1 <= pending[0].1 <= SEARCH_MAX_DEPTH);
        if !candidate(id) {
            law_search_depth_bounded(pending, depth, children(id));
            let rest = pending.drop_first();
            assert(depths_in_bounds(rest));
            if depth < SEARCH_MAX_DEPTH {
                law_search_depth_bounded(rest, depth, children(id));
            }
            law_bfs_finds_candidate_within_depth(
                queued_after(rest, depth, children(id)),
                children,
                candidate,
                (fuel - 1) as nat,
            );
        }
    }
}

/// Which view of the automation tree a search walks.
#[derive(Debug, Clone, Copy, PartialEq, Eq, Structural)]
pub enum TreeView {
    Control,
    Raw,
}

/// One stage of the search for a text target around the focused element.
#[derive(Debug, Clone, Copy, PartialEq, Eq, Structural)]
pub enum SearchStage {
    /// Breadth-first below the focused element.
    Below(TreeView),
    /// Up through the ancestors (each one, then breadth-first below it).
    Above(TreeView),
}

/// The stages, in order, tried when the focused element itself is not the
/// target: the control view below then above, then the raw view below then
/// above. A view that cannot be opened is skipped; the first stage that finds
/// an element ends the search.
pub fn target_search_stages() -> (r: Vec<SearchStage>)
    ensures
        r@ == seq![
            SearchStage::Below(TreeView::Control),
            SearchStage::Above(TreeView::Control),
            SearchStage::Below(TreeView::Raw),
            SearchStage::Above(TreeView::Raw),
        ],
{
    let mut v: Vec<SearchStage> = Vec::new();
    v.push(SearchStage::Below(TreeView::Control));
    v.push(SearchStage::Above(TreeView::Control));
    v.push(SearchStage::Below(TreeView::Raw));
    v.push(SearchStage::Above(TreeView::Raw));
    v
}

/// What the climb through the ancestors does next.
#[derive(Debug, Clone, Copy, PartialEq, Eq, Structural)]
pub enum AncestorStep {
    /// Stop without a result.
    GiveUp,
    /// The parent just fetched is the target.
    TakeParent,
    /// Search breadth-first below the parent just fetched.
    SearchBelowParent,
    /// The search below the parent found the target.
    TakeBelow,
    /// Fetch the next parent up.
    ClimbFurther,
}

/// The climb through at most `ANCESTOR_SEARCH_LIMIT` ancestors; its view is
/// how many parents have been fetched.
pub struct AncestorClimb {
    level: usize,
}

impl View for AncestorClimb {
    type V = nat;

    closed spec fn view(&self) -> nat {
        self.level as nat
    }
}

impl AncestorClimb {
    /// No parent fetched yet.
    pub fn new() -> (r: Self)
        ensures
            r@ == 0,
    {
        AncestorClimb { level: 0 }
    }

    /// Whether another parent may be fetched.
    pub fn may_climb(&self) -> (r: bool)
        ensures
            r == (self@ < ANCESTOR_SEARCH_LIMIT),
    {
        self.level < ANCESTOR_SEARCH_LIMIT
    }

    /// A parent was asked for: with none, give up; a candidate parent is the
    /// target; otherwise search below it.
    pub fn on_parent(&mut self, parent_found: bool, parent_is_candidate: bool) -> (r: AncestorStep)
        requires
            old(self)@ < ANCESTOR_SEARCH_LIMIT,
        ensures
            final(self)@ == if parent_found { old(self)@ + 1 } else { old(self)@ },
            r == if !parent_found {
                AncestorStep::GiveUp
            } else if parent_is_candidate {
                AncestorStep::TakeParent
            } else {
                AncestorStep::SearchBelowParent
            },
    {
        if !parent_found {
            return AncestorStep::GiveUp;
        }
        self.level = self.level + 1;
        if parent_is_candidate {
            AncestorStep::TakeParent
        } else {
            AncestorStep::SearchBelowParent
        }
    }

    /// The search below the last parent ended: take what it found, else climb
    /// further while the limit allows, else give up.
    pub fn after_search_below(&self, found: bool) -> (r: AncestorStep)
        ensures
            r == if found {
                AncestorStep::TakeBelow
            } else if self@ < ANCESTOR_SEARCH_LIMIT {
                AncestorStep::ClimbFurther
            } else {
                AncestorStep::GiveUp
            },
    {
        if found {
            AncestorStep::TakeBelow
        } else if self.level < ANCESTOR_SEARCH_LIMIT {
            AncestorStep::ClimbFurther
        } else {
            AncestorStep::GiveUp
        }
    }
}

/// The `i`-th stage of the target search (counting from 0).
pub open spec fn stage_at(i: int) -> SearchStage {
    if i == 0 {
        SearchStage::Below(TreeView::Control)
    } else if i == 1 {
        SearchStage::Above(TreeView::Control)
    } else if i == 2 {
        SearchStage::Below(TreeView::Raw)
    } else {
        SearchStage::Above(TreeView::Raw)
    }
}

/// The number of stages in the target search.
pub const TARGET_SEARCH_STAGES: usize = 4;

/// How a stage of the target search ended.
#[derive(Debug, Clone, Copy, PartialEq, Eq, Structural)]
pub enum StageOutcome {
    /// The stage's tree view could not be opened (the stage is skipped).
    ViewUnavailable,
    /// The stage found a text target.
    Found,
    /// The stage found nothing.
    NotFound,
}

/// What the target search does next.
#[derive(Debug, Clone, Copy, PartialEq, Eq, Structural)]
pub enum TargetDecision {
    /// Run this stage.
    Run(SearchStage),
    /// The last stage's result is the target.
    TakeFound,
    /// No stage found a target.
    GiveUp,
}

/// The search for a text target around the focused element, stage by
/// stage; its view is how many stages have been started.
pub struct TargetSearch {
    started: usize,
}

impl View for TargetSearch {
    type V = nat;

    closed spec fn view(&self) -> nat {
        self.started as nat
    }
}

impl TargetSearch {
    /// The search, with its first stage to run.
    pub fn begin() -> (r: (Self, TargetDecision))
        ensures
            r.0@ == 1,
            r.1 == TargetDecision::Run(stage_at(0)),
    {
        (TargetSearch { started: 1 }, TargetDecision::Run(SearchStage::Below(TreeView::Control)))
    }

    /// The stage last run ended with `outcome`: take what it found, else run
    /// the next stage, else give up after the last one.
    pub fn on_outcome(&mut self, outcome: StageOutcome) -> (r: TargetDecision)
        requires
            1 <= old(self)@ <= TARGET_SEARCH_STAGES,
        ensures
            1 <= final(self)@ <= TARGET_SEARCH_STAGES,
            outcome == StageOutcome::Found ==> r == TargetDecision::TakeFound && final(self)@
                == old(self)@,
            outcome != StageOutcome::Found && old(self)@ < TARGET_SEARCH_STAGES ==> r
                == TargetDecision::Run(stage_at(old(self)@ as int)) && final(self)@ == old(self)@
                + 1,
            outcome != StageOutcome::Found && old(self)@ == TARGET_SEARCH_STAGES ==> r
                == TargetDecision::GiveUp && final(self)@ == old(self)@,
    {
        if outcome == StageOutcome::Found {
            return TargetDecision::TakeFound;
        }
        if self.started >= TARGET_SEARCH_STAGES {
            return TargetDecision::GiveUp;
        }
        let stage = if self.started == 1 {
            SearchStage::Above(TreeView::Control)
        } else if self.started == 2 {
            SearchStage::Below(TreeView::Raw)
        } else {
            SearchStage::Above(TreeView::Raw)
        };
        self.started = self.started + 1;
        TargetDecision::Run(stage)
    }
}

/// The stages run in the order `target_search_stages` lists.
pub proof fn law_stage_order_matches_list()
    ensures
        forall|i: int| 0 <= i < TARGET_SEARCH_STAGES ==> #[trigger] stage_at(i) == seq![
            SearchStage::Below(TreeView::Control),
            SearchStage::Above(TreeView::Control),
            SearchStage::Below(TreeView::Raw),
            SearchStage::Above(TreeView::Raw),
        ][i],
{
}

} // verus!
