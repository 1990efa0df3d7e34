//! The state store: per-endpoint status, latency and history, with the
//! selection cursor and display mode, owned by the event loop alone.

use crate::backend::{CheckResult, CheckStatus};
use crate::config::Endpoint;
use std::collections::VecDeque;
use vstd::prelude::*;

verus! {

/// Most latency samples kept per endpoint; older ones are evicted first.
pub const MAX_LATENCY_HISTORY: usize = 100;

/// The newest `MAX_LATENCY_HISTORY` samples of `s`, in order.
pub open spec fn bounded_tail(s: Seq<u64>) -> Seq<u64> {
    if s.len() > MAX_LATENCY_HISTORY {
        s.subrange(s.len() - MAX_LATENCY_HISTORY, s.len() as int)
    } else {
        s
    }
}

/// The history `h` after the sample `x` is recorded.
pub open spec fn push_bounded(h: Seq<u64>, x: u64) -> Seq<u64> {
    bounded_tail(h.push(x))
}

/// Whether the detail panel is shown.
#[derive(Debug, Clone, Copy, PartialEq, Eq, Structural)]
pub enum AppMode {
    Normal,
    Inspecting,
}

/// The mode after a toggle.
pub open spec fn toggled(mode: AppMode) -> AppMode {
    match mode {
        AppMode::Normal => AppMode::Inspecting,
        AppMode::Inspecting => AppMode::Normal,
    }
}

/// The state of one endpoint: its latest status and latency, absent until
/// the first outcome, and the bounded history of its latencies.
#[derive(Debug)]
pub struct EndpointState {
    pub name: String,
    pub url: String,
    pub method: String,
    pub latest_status: Option<CheckStatus>,
    /// Latency of the latest outcome, in milliseconds.
    pub latest_latency: Option<u64>,
    /// Latencies in milliseconds, oldest first.
    pub latency_history: VecDeque<u64>,
}

/// An endpoint's state as plain values.
pub struct EndpointView {
    pub name: Seq<char>,
    pub url: Seq<char>,
    pub method: Seq<char>,
    pub latest_status: Option<CheckStatus>,
    pub latest_latency: Option<u64>,
    pub history: Seq<u64>,
}

impl View for EndpointState {
    type V = EndpointView;

    open spec fn view(&self) -> EndpointView {
        EndpointView {
            name: self.name@,
            url: self.url@,
            method: self.method@,
            latest_status: self.latest_status,
            latest_latency: self.latest_latency,
            history: self.latency_history@,
        }
    }
}

impl EndpointView {
    /// The state after the outcome `r` is recorded: it becomes the latest,
    /// and its latency joins the history.
    pub open spec fn record(self, r: CheckResult) -> EndpointView {
        EndpointView {
            latest_status: Some(r.status),
            latest_latency: Some(r.latency_ms),
            history: push_bounded(self.history, r.latency_ms),
            ..self
        }
    }
}

/// The initial state of the configured endpoint `e`.
pub open spec fn fresh_state(e: Endpoint) -> EndpointView {
    EndpointView {
        name: e.name@,
        url: e.url@,
        method: e.method_spec(),
        latest_status: None,
        latest_latency: None,
        history: Seq::empty(),
    }
}

/// The whole store as plain values: the ordered identifiers, the state of
/// each in the same order, the cursor and the mode.
pub struct AppView {
    pub names: Seq<Seq<char>>,
    pub states: Seq<EndpointView>,
    pub selected: Option<int>,
    pub mode: AppMode,
}

impl AppView {
    /// The store's invariant: one state per identifier, in the same order,
    /// identifiers unique, histories within capacity, and a cursor that is
    /// absent exactly when there are no endpoints and valid otherwise.
    pub open spec fn wf(self) -> bool {
        &&& self.names.len() == self.states.len()
        &&& forall|i: int| 0 <= i < self.states.len() ==> #[trigger] self.states[i].name == self.names[i]
        &&& forall|i: int, j: int|
            0 <= i < self.names.len() && 0 <= j < self.names.len() && i != j ==> self.names[i] != self.names[j]
        &&& forall|i: int|
            0 <= i < self.states.len() ==> (#[trigger] self.states[i]).history.len() <= MAX_LATENCY_HISTORY
        &&& match self.selected {
            None => self.names.len() == 0,
            Some(i) => 0 <= i < self.names.len(),
        }
    }

    /// Whether `name` identifies an endpoint of the store.
    pub open spec fn tracks(self, name: Seq<char>) -> bool {
        exists|i: int| 0 <= i < self.names.len() && self.names[i] == name
    }

    /// The position of `name` in the order, where it is tracked.
    pub open spec fn index_of(self, name: Seq<char>) -> int {
        choose|i: int| 0 <= i < self.names.len() && self.names[i] == name
    }

    /// The store after the outcome `r` is merged: the endpoint it names
    /// records it, and an outcome for an unknown identifier changes nothing.
    pub open spec fn merged(self, r: CheckResult) -> AppView {
        if self.tracks(r.name@) {
            let i = self.index_of(r.name@);
            AppView { states: self.states.update(i, self.states[i].record(r)), ..self }
        } else {
            self
        }
    }

    /// The cursor after a move to the next row, wrapping from the last to
    /// the first.
    pub open spec fn next_selected(self) -> Option<int> {
        if self.names.len() == 0 {
            self.selected
        } else {
            match self.selected {
                Some(i) => if i >= self.names.len() - 1 {
                    Some(0)
                } else {
                    Some(i + 1)
                },
                None => Some(0),
            }
        }
    }

    /// The cursor after a move to the previous row, wrapping from the first
    /// to the last.
    pub open spec fn previous_selected(self) -> Option<int> {
        if self.names.len() == 0 {
            self.selected
        } else {
            match self.selected {
                Some(i) => if i == 0 {
                    Some(self.names.len() - 1)
                } else {
                    Some(i - 1)
                },
                None => Some(0),
            }
        }
    }
}

/// The store after the outcomes `rs` are merged one after another, in order.
pub open spec fn merge_all_spec(v: AppView, rs: Seq<CheckResult>) -> AppView
    decreases rs.len(),
{
    if rs.len() == 0 {
        v
    } else {
        merge_all_spec(v, rs.drop_last()).merged(rs.last())
    }
}

/// The state store.
pub struct App {
    endpoint_order: Vec<String>,
    endpoint_states: Vec<EndpointState>,
    selected: Option<usize>,
    mode: AppMode,
}

impl View for App {
    type V = AppView;

    closed spec fn view(&self) -> AppView {
        AppView {
            names: self.endpoint_order@.map_values(|s: String| s@),
            states: self.endpoint_states@.map_values(|e: EndpointState| e@),
            selected: match self.selected {
                Some(i) => Some(i as int),
                None => None,
            },
            mode: self.mode,
        }
    }
}

impl App {
    pub open spec fn wf(&self) -> bool {
        self@.wf()
    }

    /// A store with one fresh state per configured endpoint, in the
    /// configured order, the cursor on the first row (absent when there is
    /// none) and the detail panel hidden.
    pub fn new(endpoints: &Vec<Endpoint>) -> (r: App)
        requires
            forall|i: int, j: int|
                0 <= i < endpoints@.len() && 0 <= j < endpoints@.len() && i != j
                    ==> endpoints@[i].name@ != endpoints@[j].name@,
        ensures
            r.wf(),
            r@.names == endpoints@.map_values(|e: Endpoint| e.name@),
            r@.states == endpoints@.map_values(|e: Endpoint| fresh_state(e)),
            r@.selected == if endpoints@.len() == 0 {
                None::<int>
            } else {
                Some(0int)
            },
            r@.mode == AppMode::Normal,
    {
        let mut endpoint_order: Vec<String> = Vec::new();
        let mut endpoint_states: Vec<EndpointState> = Vec::new();
        let n = endpoints.len();
        let mut k: usize = 0;
        while k < n
            invariant
                n == endpoints@.len(),
                k <= n,
                endpoint_order@.len() == k,
                endpoint_states@.len() == k,
                forall|i: int| 0 <= i < k ==> #[trigger] endpoint_order@[i]@ == endpoints@[i].name@,
                forall|i: int| 0 <= i < k ==> #[trigger] endpoint_states@[i]@ == fresh_state(endpoints@[i]),
            decreases n - k,
        {
            let endpoint = &endpoints[k];
            let state = EndpointState {
                name: endpoint.name.clone(),
                url: endpoint.url.clone(),
                method: endpoint.effective_method(),
                latest_status: None,
                latest_latency: None,
                latency_history: VecDeque::new(),
            };
            endpoint_order.push(endpoint.name.clone());
            endpoint_states.push(state);
            k += 1;
        }
        let selected = if n == 0 {
            None
        } else {
            Some(0)
        };
        let app = App { endpoint_order, endpoint_states, selected, mode: AppMode::Normal };
        assert(app@.names =~= endpoints@.map_values(|e: Endpoint| e.name@));
        assert(app@.states =~= endpoints@.map_values(|e: Endpoint| fresh_state(e)));
        app
    }

    /// The position of `name` in the order, where it is tracked.
    fn position_of(&self, name: &String) -> (r: Option<usize>)
        requires
            self.wf(),
        ensures
            match r {
                Some(i) => i < self@.names.len() && self@.names[i as int] == name@
                    && i == self@.index_of(name@),
                None => !self@.tracks(name@),
            },
    {
        let n = self.endpoint_order.len();
        let mut k: usize = 0;
        while k < n
            invariant
                self.wf(),
                n == self@.names.len(),
                k <= n,
                forall|i: int| 0 <= i < k ==> self@.names[i] != name@,
            decreases n - k,
        {
            if self.endpoint_order[k] == *name {
                let ghost v = self@;
                assert(v.names[k as int] == name@);
                assert(v.tracks(name@));
                let ghost j = v.index_of(name@);
                assert(j == k as int);
                return Some(k);
            }
            k += 1;
        }
        None
    }

    /// Merges one outcome: the endpoint it names takes its status and
    /// latency as the latest and appends the latency to its history,
    /// evicting the oldest sample beyond capacity. An outcome for an
    /// unknown identifier is ignored.
    pub fn on_result(&mut self, result: CheckResult)
        requires
            old(self).wf(),
        ensures
            final(self).wf(),
            final(self)@ == old(self)@.merged(result),
    {
        match self.position_of(&result.name) {
            Some(i) => {
                let ghost v = self@;
                let latency = result.latency_ms;
                let state = &mut self.endpoint_states[i];
                state.latest_status = Some(result.status);
                state.latest_latency = Some(latency);
                state.latency_history.push_back(latency);
                if state.latency_history.len() > MAX_LATENCY_HISTORY {
                    state.latency_history.pop_front();
                }
                assert(self@.states =~= v.states.update(i as int, v.states[i as int].record(result)));
            },
            None => {},
        }
    }

    /// Merges the outcomes `results` one after another, in arrival order.
    pub fn merge_all(&mut self, results: Vec<CheckResult>)
        requires
            old(self).wf(),
        ensures
            final(self).wf(),
            final(self)@ == merge_all_spec(old(self)@, results@),
    {
        let ghost v0 = self@;
        let ghost all = results@;
        let mut rest = results;
        let n = rest.len();
        let mut k: usize = 0;
        while k < n
            invariant
                self.wf(),
                n == all.len(),
                k <= n,
                rest@ == all.subrange(k as int, n as int),
                self@ == merge_all_spec(v0, all.subrange(0, k as int)),
            decreases n - k,
        {
            let result = rest.remove(0);
            assert(all.subrange(0, k + 1).drop_last() =~= all.subrange(0, k as int));
            self.on_result(result);
            k += 1;
            assert(rest@ =~= all.subrange(k as int, n as int));
        }
        assert(all.subrange(0, n as int) =~= all);
    }

    /// Moves the cursor to the next row, wrapping from the last row to the
    /// first; nothing happens when there are no endpoints.
    pub fn next_row(&mut self)
        requires
            old(self).wf(),
        ensures
            final(self).wf(),
            final(self)@ == (AppView { selected: old(self)@.next_selected(), ..old(self)@ }),
    {
        if self.endpoint_order.len() == 0 {
            return;
        }
        let i = match self.selected {
            Some(i) => if i >= self.endpoint_order.len() - 1 {
                0
            } else {
                i + 1
            },
            None => 0,
        };
        self.selected = Some(i);
    }

    /// Moves the cursor to the previous row, wrapping from the first row to
    /// the last; nothing happens when there are no endpoints.
    pub fn previous_row(&mut self)
        requires
            old(self).wf(),
        ensures
            final(self).wf(),
            final(self)@ == (AppView { selected: old(self)@.previous_selected(), ..old(self)@ }),
    {
        if self.endpoint_order.len() == 0 {
            return;
        }
        let i = match self.selected {
            Some(i) => if i == 0 {
                self.endpoint_order.len() - 1
            } else {
                i - 1
            },
            None => 0,
        };
        self.selected = Some(i);
    }

    /// Shows the detail panel when it is hidden, hides it when it is shown.
    pub fn toggle_inspect(&mut self)
        requires
            old(self).wf(),
        ensures
            final(self).wf(),
            final(self)@ == (AppView { mode: toggled(old(self)@.mode), ..old(self)@ }),
    {
        self.mode = match self.mode {
            AppMode::Normal => AppMode::Inspecting,
            AppMode::Inspecting => AppMode::Normal,
        };
    }

    /// The identifiers, in display order.
    pub fn endpoint_order(&self) -> (r: &Vec<String>)
        ensures
            r@.map_values(|s: String| s@) == self@.names,
    {
        &self.endpoint_order
    }

    /// The state of each endpoint, in display order.
    pub fn endpoint_states(&self) -> (r: &Vec<EndpointState>)
        ensures
            r@.map_values(|e: EndpointState| e@) == self@.states,
    {
        &self.endpoint_states
    }

    /// The state of the endpoint `name`, where it is tracked.
    pub fn state_of(&self, name: &String) -> (r: Option<&EndpointState>)
        requires
            self.wf(),
        ensures
            match r {
                Some(state) => self@.tracks(name@) && state@ == self@.states[self@.index_of(name@)],
                None => !self@.tracks(name@),
            },
    {
        match self.position_of(name) {
            Some(i) => Some(&self.endpoint_states[i]),
            None => None,
        }
    }

    /// The row under the cursor, if any.
    pub fn selected(&self) -> (r: Option<usize>)
        ensures
            match r {
                Some(i) => self@.selected == Some(i as int),
                None => self@.selected is None,
            },
    {
        self.selected
    }

    /// The state of the endpoint under the cursor, if any.
    pub fn selected_state(&self) -> (r: Option<&EndpointState>)
        requires
            self.wf(),
        ensures
            match r {
                Some(state) => self@.selected is Some && state@ == self@.states[self@.selected->0],
                None => self@.selected is None,
            },
    {
        match self.selected {
            Some(i) => Some(&self.endpoint_states[i]),
            None => None,
        }
    }

    /// Whether the detail panel is shown.
    pub fn mode(&self) -> (r: AppMode)
        ensures
            r == self@.mode,
    {
        self.mode
    }
}

/// The latencies of `rs`, in order.
pub open spec fn latencies(rs: Seq<CheckResult>) -> Seq<u64> {
    rs.map_values(|r: CheckResult| r.latency_ms)
}

/// A history holds at most `MAX_LATENCY_HISTORY` samples. Recording a
/// sample into a history below capacity appends it; recording one into a
/// full history evicts the oldest sample and appends the new one.
pub proof fn lemma_history_capacity(h: Seq<u64>, x: u64)
    requires
        h.len() <= MAX_LATENCY_HISTORY,
    ensures
        push_bounded(h, x).len() <= MAX_LATENCY_HISTORY,
        h.len() < MAX_LATENCY_HISTORY ==> push_bounded(h, x) == h.push(x),
        h.len() == MAX_LATENCY_HISTORY ==> push_bounded(h, x) == h.drop_first().push(x),
{
    if h.len() == MAX_LATENCY_HISTORY {
        assert(push_bounded(h, x) =~= h.drop_first().push(x));
    }
}

/// Trimming to capacity before a sample is recorded keeps the same samples
/// as trimming after it.
proof fn lemma_bounded_tail_push(s: Seq<u64>, x: u64)
    ensures
        push_bounded(bounded_tail(s), x) == bounded_tail(s.push(x)),
{
    if s.len() > MAX_LATENCY_HISTORY {
        assert(push_bounded(bounded_tail(s), x) =~= bounded_tail(s.push(x)));
    }
}

/// Merging an outcome for the endpoint at position `i` changes that
/// endpoint's state alone, by recording the outcome.
proof fn lemma_merged_at(v: AppView, r: CheckResult, i: int)
    requires
        v.wf(),
        0 <= i < v.names.len(),
        v.names[i] == r.name@,
    ensures
        v.merged(r) == (AppView { states: v.states.update(i, v.states[i].record(r)), ..v }),
{
    assert(v.tracks(r.name@));
    let j = v.index_of(r.name@);
    assert(j == i);
}

/// Merging any outcome keeps the store's invariant: in particular every
/// history stays within `MAX_LATENCY_HISTORY` samples, whatever arrives.
pub proof fn lemma_merged_wf(v: AppView, r: CheckResult)
    requires
        v.wf(),
    ensures
        v.merged(r).wf(),
        forall|i: int| 0 <= i < v.merged(r).states.len() ==> (#[trigger] v.merged(r).states[i]).history.len() <= MAX_LATENCY_HISTORY,
{
    if v.tracks(r.name@) {
        let i = v.index_of(r.name@);
        lemma_history_capacity(v.states[i].history, r.latency_ms);
        let w = v.merged(r);
        assert forall|k: int| 0 <= k < w.states.len() implies #[trigger] w.states[k].history.len() <= MAX_LATENCY_HISTORY by {
            if k != i {
                assert(w.states[k] == v.states[k]);
            }
        }
    }
}

/// An outcome for an identifier that the store does not track leaves the
/// store as it was.
pub proof fn lemma_unknown_outcome_ignored(v: AppView, r: CheckResult)
    requires
        !v.tracks(r.name@),
    ensures
        v.merged(r) == v,
{
}

/// With N endpoints, moving to the previous row from the first lands on the
/// last (row N-1), and moving to the next row from the last lands on the
/// first; with no endpoints both moves leave the cursor absent.
pub proof fn lemma_cursor_wraps(v: AppView)
    requires
        v.wf(),
    ensures
        v.names.len() > 0 && v.selected == Some(0int) ==> v.previous_selected() == Some(v.names.len() - 1),
        v.names.len() > 0 && v.selected == Some(v.names.len() - 1) ==> v.next_selected() == Some(0int),
        v.names.len() == 0 ==> v.next_selected() is None && v.previous_selected() is None,
{
}

/// Merging k outcomes in a row that all name the endpoint at position `i`
/// leaves the k-th outcome's status and latency as that endpoint's latest,
/// appends all k latencies to its history in arrival order (keeping the
/// newest `MAX_LATENCY_HISTORY`), and changes no other endpoint.
pub proof fn lemma_merge_same_endpoint(v: AppView, rs: Seq<CheckResult>, i: int)
    requires
        v.wf(),
        0 <= i < v.names.len(),
        forall|k: int| 0 <= k < rs.len() ==> (#[trigger] rs[k]).name@ == v.names[i],
    ensures
        merge_all_spec(v, rs).wf(),
        merge_all_spec(v, rs).names == v.names,
        merge_all_spec(v, rs).selected == v.selected,
        merge_all_spec(v, rs).mode == v.mode,
        merge_all_spec(v, rs).states.len() == v.states.len(),
        merge_all_spec(v, rs).states[i].history == bounded_tail(v.states[i].history + latencies(rs)),
        rs.len() > 0 ==> merge_all_spec(v, rs).states[i].latest_status == Some(rs.last().status),
        rs.len() > 0 ==> merge_all_spec(v, rs).states[i].latest_latency == Some(rs.last().latency_ms),
        forall|j: int| 0 <= j < v.states.len() && j != i ==> #[trigger] merge_all_spec(v, rs).states[j] == v.states[j],
    decreases rs.len(),
{
    if rs.len() == 0 {
        assert(v.states[i].history + latencies(rs) =~= v.states[i].history);
    } else {
        let front = rs.drop_last();
        let r = rs.last();
        lemma_merge_same_endpoint(v, front, i);
        let w = merge_all_spec(v, front);
        lemma_merged_at(w, r, i);
        lemma_merged_wf(w, r);
        lemma_bounded_tail_push(v.states[i].history + latencies(front), r.latency_ms);
        assert((v.states[i].history + latencies(front)).push(r.latency_ms) =~= v.states[i].history + latencies(rs));
    }
}

} // verus!
