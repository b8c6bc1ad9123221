//! Runtime helpers: cooperative cancellation and a URL-style router with
//! history and `:param` pattern matching.

use vstd::prelude::*;

verus! {

broadcast use vstd::string::group_string_axioms;

/// A token that can be checked to determine if a task should be cancelled.
/// Clones share the same flag.
#[derive(Clone, Default)]
pub struct CancellationToken {
    cancelled: std::sync::Arc<std::sync::atomic::AtomicBool>,
}

impl CancellationToken {
    /// Create a new cancellation token (not cancelled).
    pub fn new() -> Self {
        CancellationToken {
            cancelled: std::sync::Arc::new(std::sync::atomic::AtomicBool::new(false)),
        }
    }

    /// Check if cancellation has been requested.
    pub fn is_cancelled(&self) -> bool {
        self.cancelled.load(std::sync::atomic::Ordering::Relaxed)
    }

    /// Request cancellation.
    pub fn cancel(&self) {
        self.cancelled.store(true, std::sync::atomic::Ordering::Relaxed);
    }
}

// ── Path segments and pattern matching ───────────────────────────────

/// The segments of `s` separated by `sep`, as `str::split` yields them:
/// `n` separators give `n + 1` segments, empty ones included.
pub open spec fn split_on(s: Seq<char>, sep: char) -> Seq<Seq<char>>
    decreases s.len(),
{
    if s.len() == 0 {
        seq![Seq::<char>::empty()]
    } else {
        let prev = split_on(s.drop_last(), sep);
        if s.last() == sep {
            prev.push(Seq::<char>::empty())
        } else {
            prev.update(prev.len() - 1, prev.last().push(s.last()))
        }
    }
}

/// Whether a pattern segment names a parameter (`:name`).
pub open spec fn is_param_segment(p: Seq<char>) -> bool {
    p.len() > 0 && p[0] == ':'
}

/// Matches the first `n` segments of a route against the first `n`
/// segments of a pattern; a parameter segment binds its name (without
/// the `:`) to the route segment, any other segment must be equal.
pub open spec fn match_segments(
    route: Seq<Seq<char>>,
    pattern: Seq<Seq<char>>,
    n: nat,
) -> Option<Seq<(Seq<char>, Seq<char>)>>
    decreases n,
{
    if n == 0 {
        Some(Seq::empty())
    } else {
        match match_segments(route, pattern, (n - 1) as nat) {
            None => None,
            Some(params) => {
                let r = route[n - 1];
                let p = pattern[n - 1];
                if is_param_segment(p) {
                    Some(params.push((p.drop_first(), r)))
                } else if r == p {
                    Some(params)
                } else {
                    None
                }
            },
        }
    }
}

/// The parameters bound by matching `route` against `pattern`, or `None`
/// when they have a different number of `/`-segments or a literal
/// segment differs.
pub open spec fn route_match(route: Seq<char>, pattern: Seq<char>) -> Option<
    Seq<(Seq<char>, Seq<char>)>,
> {
    let rs = split_on(route, '/');
    let ps = split_on(pattern, '/');
    if rs.len() != ps.len() {
        None
    } else {
        match_segments(rs, ps, rs.len())
    }
}

/// The views of a sequence of strings.
pub open spec fn string_views(v: Seq<String>) -> Seq<Seq<char>> {
    v.map_values(|x: String| x@)
}

/// The views of a sequence of string pairs.
pub open spec fn pair_views(v: Seq<(String, String)>) -> Seq<(Seq<char>, Seq<char>)> {
    v.map_values(|p: (String, String)| (p.0@, p.1@))
}

proof fn lemma_split_nonempty(s: Seq<char>, sep: char)
    ensures
        split_on(s, sep).len() >= 1,
    decreases s.len(),
{
    if s.len() > 0 {
        lemma_split_nonempty(s.drop_last(), sep);
    }
}

proof fn lemma_match_none_persists(
    route: Seq<Seq<char>>,
    pattern: Seq<Seq<char>>,
    k: nat,
    m: nat,
)
    requires
        k <= m,
        match_segments(route, pattern, k) is None,
    ensures
        match_segments(route, pattern, m) is None,
    decreases m - k,
{
    if k < m {
        lemma_match_none_persists(route, pattern, k, (m - 1) as nat);
    }
}

/// Splits `s` on `sep`.
fn split_segments(s: &str, sep: char) -> (r: Vec<String>)
    ensures
        string_views(r@) == split_on(s@, sep),
{
    let mut done: Vec<String> = Vec::new();
    let mut cur = String::new();
    for c in iter: s.chars()
        invariant
            iter.seq() == s@,
            string_views(done@).push(cur@) == split_on(s@.take(iter.index() as int), sep),
    {
        let ghost before = s@.take(iter.index() as int);
        let ghost after = s@.take(iter.index() + 1);
        proof {
            assert(after.drop_last() == before);
            assert(after.last() == c);
            lemma_split_nonempty(before, sep);
        }
        if c == sep {
            let finished = cur;
            done.push(finished);
            cur = String::new();
            assert(string_views(done@).push(cur@) == split_on(after, sep));
        } else {
            let ghost prev = split_on(before, sep);
            cur.push(c);
            assert(string_views(done@).push(cur@) =~= prev.update(prev.len() - 1, prev.last().push(c)));
        }
    }
    proof {
        assert(s@.take(s@.len() as int) == s@);
    }
    done.push(cur);
    done
}

/// The model of a router: the current route and the stack of earlier ones.
pub struct RouterModel {
    pub current: Seq<char>,
    pub history: Seq<Seq<char>>,
}

impl RouterModel {
    /// The state after navigating to `route`.
    pub open spec fn navigated(self, route: Seq<char>) -> RouterModel {
        RouterModel { current: route, history: self.history.push(self.current) }
    }

    /// The state after going back, and whether there was a route to go back to.
    pub open spec fn went_back(self) -> (RouterModel, bool) {
        if self.history.len() > 0 {
            (RouterModel { current: self.history.last(), history: self.history.drop_last() }, true)
        } else {
            (self, false)
        }
    }
}

/// Going back right after navigating restores the earlier route and
/// history, and reports success; navigating deepens the history by one.
pub proof fn lemma_back_undoes_navigate(m: RouterModel, route: Seq<char>)
    ensures
        m.navigated(route).went_back() == (m, true),
        m.navigated(route).history.len() == m.history.len() + 1,
        m.navigated(route).current == route,
{
    assert(m.navigated(route).history.drop_last() =~= m.history);
}

/// Going back fails exactly when the history is empty, and then changes nothing.
pub proof fn lemma_back_on_empty_history(m: RouterModel)
    requires
        m.history.len() == 0,
    ensures
        m.went_back() == (m, false),
{
}

proof fn lemma_match_self_prefix(segs: Seq<Seq<char>>, n: nat)
    requires
        n <= segs.len(),
    ensures
        match_segments(segs, segs, n) is Some,
    decreases n,
{
    if n > 0 {
        lemma_match_self_prefix(segs, (n - 1) as nat);
    }
}

/// Every route matches itself used as a pattern.
pub proof fn lemma_route_matches_itself(route: Seq<char>)
    ensures
        route_match(route, route) is Some,
{
    lemma_match_self_prefix(split_on(route, '/'), split_on(route, '/').len());
}

proof fn lemma_literal_prefix(route: Seq<Seq<char>>, pattern: Seq<Seq<char>>, n: nat)
    requires
        n <= route.len(),
        n <= pattern.len(),
        forall|j: int| 0 <= j < n ==> !is_param_segment(#[trigger] pattern[j]),
        match_segments(route, pattern, n) is Some,
    ensures
        match_segments(route, pattern, n) == Some(Seq::<(Seq<char>, Seq<char>)>::empty()),
        route.take(n as int) =~= pattern.take(n as int),
    decreases n,
{
    if n > 0 {
        lemma_literal_prefix(route, pattern, (n - 1) as nat);
        assert(route.take(n as int) =~= route.take(n - 1).push(route[n - 1]));
        assert(pattern.take(n as int) =~= pattern.take(n - 1).push(pattern[n - 1]));
    }
}

/// A pattern without `:param` segments binds no parameter, and it matches
/// only a route with exactly the same segments.
pub proof fn lemma_literal_pattern(route: Seq<char>, pattern: Seq<char>)
    requires
        forall|j: int|
            0 <= j < split_on(pattern, '/').len() ==> !is_param_segment(
                #[trigger] split_on(pattern, '/')[j],
            ),
        route_match(route, pattern) is Some,
    ensures
        route_match(route, pattern) == Some(Seq::<(Seq<char>, Seq<char>)>::empty()),
        split_on(route, '/') == split_on(pattern, '/'),
{
    let rs = split_on(route, '/');
    let ps = split_on(pattern, '/');
    lemma_literal_prefix(rs, ps, rs.len());
    assert(rs.take(rs.len() as int) =~= rs);
    assert(ps.take(ps.len() as int) =~= ps);
}

proof fn lemma_match_prefix(route: Seq<Seq<char>>, pattern: Seq<Seq<char>>, n: nat)
    requires
        n <= route.len(),
        n <= pattern.len(),
    ensures
        match_segments(route, pattern, n) is Some <==> forall|j: int|
            0 <= j < n ==> is_param_segment(#[trigger] pattern[j]) || route[j] == pattern[j],
        (forall|j: int| 0 <= j < n ==> is_param_segment(#[trigger] pattern[j])) ==> match_segments(
            route,
            pattern,
            n,
        ) == Some(Seq::new(n, |j: int| (pattern[j].drop_first(), route[j]))),
    decreases n,
{
    if n > 0 {
        lemma_match_prefix(route, pattern, (n - 1) as nat);
        if match_segments(route, pattern, (n - 1) as nat) is None {
            lemma_match_none_persists(route, pattern, (n - 1) as nat, n);
        }
        if forall|j: int| 0 <= j < n ==> is_param_segment(#[trigger] pattern[j]) {
            assert(is_param_segment(pattern[n - 1]));
            assert(Seq::new((n - 1) as nat, |j: int| (pattern[j].drop_first(), route[j])).push(
                (pattern[n - 1].drop_first(), route[n - 1]),
            ) =~= Seq::new(n, |j: int| (pattern[j].drop_first(), route[j])));
        }
    }
}

/// A route matches a pattern exactly when both have the same number of
/// `/`-segments and every literal segment of the pattern equals the
/// route's segment at that place (a `:name` segment matches any segment).
/// When every segment of the pattern is a parameter, the bindings are
/// one per segment, in order: each parameter's name without the `:`,
/// with the route's segment at its place.
pub proof fn lemma_route_match_segments(route: Seq<char>, pattern: Seq<char>)
    ensures
        ({
            let rs = split_on(route, '/');
            let ps = split_on(pattern, '/');
            &&& route_match(route, pattern) is Some <==> (rs.len() == ps.len() && forall|j: int|
                0 <= j < ps.len() ==> is_param_segment(#[trigger] ps[j]) || rs[j] == ps[j])
            &&& (rs.len() == ps.len() && forall|j: int|
                0 <= j < ps.len() ==> is_param_segment(#[trigger] ps[j])) ==> route_match(
                route,
                pattern,
            ) == Some(Seq::new(ps.len(), |j: int| (ps[j].drop_first(), rs[j])))
        }),
{
    let rs = split_on(route, '/');
    let ps = split_on(pattern, '/');
    if rs.len() == ps.len() {
        lemma_match_prefix(rs, ps, rs.len());
    }
}

/// `/` splits text into segments: text without a `/` is one segment, and
/// text joined around a `/` splits into the segments of each side.
pub proof fn lemma_split_on_slash(a: Seq<char>, b: Seq<char>)
    ensures
        (forall|i: int| 0 <= i < a.len() ==> a[i] != '/') ==> split_on(a, '/') == seq![a],
        split_on(a.push('/') + b, '/') == split_on(a, '/') + split_on(b, '/'),
    decreases b.len(),
{
    lemma_split_single(a);
    if b.len() == 0 {
        assert(a.push('/') + b =~= a.push('/'));
        assert(a.push('/').drop_last() =~= a);
        assert(split_on(a, '/') + seq![Seq::<char>::empty()] =~= split_on(a, '/').push(Seq::<char>::empty()));
    } else {
        lemma_split_on_slash(a, b.drop_last());
        let whole = a.push('/') + b;
        assert(whole.drop_last() =~= a.push('/') + b.drop_last());
        assert(whole.last() == b.last());
        lemma_split_nonempty(b.drop_last(), '/');
        lemma_split_nonempty(a, '/');
        let left = split_on(a, '/');
        let prev = split_on(b.drop_last(), '/');
        if b.last() == '/' {
            assert(left + prev.push(Seq::<char>::empty()) =~= (left + prev).push(Seq::<char>::empty()));
        } else {
            assert(left + prev.update(prev.len() - 1, prev.last().push(b.last())) =~= (left + prev).update(
                (left + prev).len() - 1,
                (left + prev).last().push(b.last()),
            ));
        }
    }
}

proof fn lemma_split_single(a: Seq<char>)
    ensures
        (forall|i: int| 0 <= i < a.len() ==> a[i] != '/') ==> split_on(a, '/') == seq![a],
    decreases a.len(),
{
    if a.len() > 0 {
        lemma_split_single(a.drop_last());
        if forall|i: int| 0 <= i < a.len() ==> a[i] != '/' {
            assert(forall|i: int| 0 <= i < a.drop_last().len() ==> a.drop_last()[i] == a[i]);
            assert(a.drop_last().push(a.last()) =~= a);
            assert(seq![a.drop_last()].update(0, a.drop_last().push(a.last())) =~= seq![a]);
        }
    } else {
        assert(a =~= Seq::<char>::empty());
    }
}

/// Simple URL-style router for multi-page applications.
#[derive(Debug, Clone)]
pub struct Router {
    current: String,
    history: Vec<String>,
}

impl View for Router {
    type V = RouterModel;

    closed spec fn view(&self) -> RouterModel {
        RouterModel { current: self.current@, history: string_views(self.history@) }
    }
}

impl Router {
    /// Create a new router starting at the given route; the initial route
    /// is also the first entry of the history.
    pub fn new(initial: &str) -> (r: Self)
        ensures
            r@.current == initial@,
            r@.history == seq![initial@],
    {
        let current = initial.to_owned();
        let first = initial.to_owned();
        let mut history: Vec<String> = Vec::new();
        history.push(first);
        let r = Router { current, history };
        assert(r@.history =~= seq![initial@]);
        r
    }

    /// Navigate to a new route, pushing the current one onto the history stack.
    pub fn navigate(&mut self, route: &str)
        ensures
            final(self)@ == old(self)@.navigated(route@),
    {
        let previous = self.current.clone();
        self.history.push(previous);
        self.current = route.to_owned();
        assert(string_views(self.history@) =~= string_views(old(self).history@).push(
            old(self).current@,
        ));
    }

    /// Go back to the previous route. Returns `true` if successful.
    pub fn back(&mut self) -> (r: bool)
        ensures
            (final(self)@, r) == old(self)@.went_back(),
    {
        match self.history.pop() {
            Some(prev) => {
                self.current = prev;
                assert(string_views(self.history@) =~= string_views(old(self).history@).drop_last());
                true
            },
            None => false,
        }
    }

    /// Get the current route.
    pub fn current(&self) -> (r: &str)
        ensures
            r@ == self@.current,
    {
        self.current.as_str()
    }

    /// Get the depth of the history stack.
    pub fn history_len(&self) -> (r: usize)
        ensures
            r == self@.history.len(),
    {
        self.history.len()
    }

    /// Match a route pattern against the current route.
    /// Supports simple patterns like "/users/:id" where `:id` matches any segment.
    pub fn matches(&self, pattern: &str) -> (r: Option<Vec<(String, String)>>)
        ensures
            match r {
                None => route_match(self@.current, pattern@) is None,
                Some(v) => route_match(self@.current, pattern@) == Some(pair_views(v@)),
            },
    {
        let route_parts = split_segments(self.current.as_str(), '/');
        let pattern_parts = split_segments(pattern, '/');
        let ghost rs = split_on(self@.current, '/');
        let ghost ps = split_on(pattern@, '/');
        if route_parts.len() != pattern_parts.len() {
            return None;
        }
        let n = route_parts.len();
        let mut params: Vec<(String, String)> = Vec::new();
        let mut i: usize = 0;
        while i < n
            invariant
                n == route_parts@.len(),
                n == pattern_parts@.len(),
                i <= n,
                string_views(route_parts@) == rs,
                string_views(pattern_parts@) == ps,
                rs == split_on(self@.current, '/'),
                ps == split_on(pattern@, '/'),
                match_segments(rs, ps, i as nat) == Some(pair_views(params@)),
            decreases n - i,
        {
            let r = &route_parts[i];
            let p = &pattern_parts[i];
            let plen = p.as_str().unicode_len();
            assert(r@ == rs[i as int] && p@ == ps[i as int]);
            if plen > 0 && p.as_str().get_char(0) == ':' {
                let name = p.as_str().substring_char(1, plen).to_owned();
                let value = r.clone();
                let ghost before = params@;
                params.push((name, value));
                assert(pair_views(params@) =~= pair_views(before).push((p@.drop_first(), r@)));
            } else if r.eq(p) {
            } else {
                proof {
                    assert(!is_param_segment(ps[i as int]));
                    assert(rs[i as int] != ps[i as int]);
                    assert(match_segments(rs, ps, (i + 1) as nat) is None);
                    lemma_match_none_persists(rs, ps, (i + 1) as nat, n as nat);
                    assert(rs.len() == n);
                    assert(ps.len() == n);
                }
                return None;
            }
            i = i + 1;
        }
        Some(params)
    }
}

} // verus!
