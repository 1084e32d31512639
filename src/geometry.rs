//! Monitor topology: choosing a monitor by id, by default, or under the cursor.
use vstd::prelude::*;

verus! {

/// One monitor of the virtual desktop, as enumerated at query time.
#[derive(Debug, Clone, Copy, PartialEq, Eq, Structural)]
pub struct MonitorBounds {
    pub monitor_id: Option<u32>,
    pub x: i32,
    pub y: i32,
    pub width: u32,
    pub height: u32,
    pub is_primary: bool,
}

/// Lists the monitors currently attached.
pub trait MonitorProvider {
    /// What `list_monitors` returns, for an implementation that states it;
    /// `None`, the default, promises nothing (a live topology may change
    /// between two calls).
    open spec fn listing(&self) -> Option<Result<Seq<MonitorBounds>, Seq<char>>> {
        None
    }

    fn list_monitors(&self) -> (r: Result<Vec<MonitorBounds>, String>)
        ensures
            self.listing() matches Some(l) ==> listing_view(r) == l,
    ;
}

/// Reads where the cursor currently is, in virtual-desktop coordinates.
pub trait CursorPositionProvider {
    /// What `get_position` returns, for an implementation that states it;
    /// `None`, the default, promises nothing.
    open spec fn position(&self) -> Option<Result<(i32, i32), Seq<char>>> {
        None
    }

    fn get_position(&self) -> (r: Result<(i32, i32), String>)
        ensures
            self.position() matches Some(p) ==> message_view(r) == p,
    ;
}

/// The view of a listing whose error is a message.
pub open spec fn listing_view<T>(r: Result<Vec<T>, String>) -> Result<Seq<T>, Seq<char>> {
    match r {
        Ok(v) => Ok(v@),
        Err(e) => Err(e@),
    }
}

/// What choosing a monitor yields after the provider answered `listing`: its
/// error as it came, or the choice among the monitors it listed.
pub open spec fn bounds_with_listing(
    listing: Result<Seq<MonitorBounds>, Seq<char>>,
    wanted_id: Option<u32>,
) -> Result<MonitorBounds, Seq<char>> {
    match listing {
        Err(e) => Err(e),
        Ok(ms) => selection_outcome(ms, wanted_id),
    }
}

/// What resolving the cursor's monitor yields after the providers answered
/// `listing` and `position`: a listing error as it came; with no monitor,
/// "No monitor detected" whatever the position; a position error as it came;
/// else the monitor under the cursor.
pub open spec fn cursor_with_answers(
    listing: Result<Seq<MonitorBounds>, Seq<char>>,
    position: Result<(i32, i32), Seq<char>>,
) -> Result<MonitorBounds, Seq<char>> {
    match listing {
        Err(e) => Err(e),
        Ok(ms) => if ms.len() == 0 {
            Err(no_monitor_message())
        } else {
            match position {
                Err(e) => Err(e),
                Ok((px, py)) => cursor_outcome(ms, px, py),
            }
        },
    }
}

/// Index of the first monitor of `ms` that satisfies `p`.
pub open spec fn first_match(ms: Seq<MonitorBounds>, p: spec_fn(MonitorBounds) -> bool) -> Option<
    int,
>
    decreases ms.len(),
{
    if ms.len() == 0 {
        None
    } else {
        match first_match(ms.drop_last(), p) {
            Some(i) => Some(i),
            None => if p(ms.last()) {
                Some(ms.len() - 1)
            } else {
                None
            },
        }
    }
}

/// The monitor used when no id is asked for: the first one flagged primary,
/// or else the first one listed.
pub open spec fn default_monitor(ms: Seq<MonitorBounds>) -> MonitorBounds {
    match first_match(ms, primary_test()) {
        Some(i) => ms[i],
        None => ms[0],
    }
}

/// Whether `(px, py)` lies in the half-open rectangle
/// `[x, x + width) × [y, y + height)` of `m`.
pub open spec fn contains_point(m: MonitorBounds, px: i32, py: i32) -> bool {
    &&& m.x <= px < m.x + m.width
    &&& m.y <= py < m.y + m.height
}

pub open spec fn primary_test() -> spec_fn(MonitorBounds) -> bool {
    |m: MonitorBounds| m.is_primary
}

pub open spec fn id_test(id: u32) -> spec_fn(MonitorBounds) -> bool {
    |m: MonitorBounds| m.monitor_id == Some(id)
}

pub open spec fn point_test(px: i32, py: i32) -> spec_fn(MonitorBounds) -> bool {
    |m: MonitorBounds| contains_point(m, px, py)
}

pub open spec fn no_monitor_message() -> Seq<char> {
    "No monitor detected"@
}

pub open spec fn monitor_not_found_message(id: u32) -> Seq<char> {
    "Monitor "@ + crate::text::decimal(id as nat) + " was not found"@
}

/// What choosing a monitor from `ms` yields: the monitor with the wanted id,
/// or the default monitor when no id is wanted.
pub open spec fn selection_outcome(ms: Seq<MonitorBounds>, wanted_id: Option<u32>) -> Result<
    MonitorBounds,
    Seq<char>,
> {
    if ms.len() == 0 {
        Err(no_monitor_message())
    } else {
        match wanted_id {
            Some(id) => match first_match(ms, id_test(id)) {
                Some(i) => Ok(ms[i]),
                None => Err(monitor_not_found_message(id)),
            },
            None => Ok(default_monitor(ms)),
        }
    }
}

/// What resolving the cursor's monitor yields: the first monitor holding the
/// point, else the default monitor.
pub open spec fn cursor_outcome(ms: Seq<MonitorBounds>, px: i32, py: i32) -> Result<
    MonitorBounds,
    Seq<char>,
> {
    if ms.len() == 0 {
        Err(no_monitor_message())
    } else {
        match first_match(ms, point_test(px, py)) {
            Some(i) => Ok(ms[i]),
            None => Ok(default_monitor(ms)),
        }
    }
}

/// The view of a `Result` whose error is a message.
pub open spec fn message_view<T>(r: Result<T, String>) -> Result<T, Seq<char>> {
    match r {
        Ok(v) => Ok(v),
        Err(e) => Err(e@),
    }
}

proof fn lemma_first_match_prefix(ms: Seq<MonitorBounds>, i: int)
    requires
        0 <= i < ms.len(),
    ensures
        ms.subrange(0, i + 1).drop_last() == ms.subrange(0, i),
        ms.subrange(0, i + 1).last() == ms[i],
{
    assert(ms.subrange(0, i + 1).drop_last() =~= ms.subrange(0, i));
}

/// `first_match` finds the lowest index that passes `p`, and finds none only
/// when no monitor passes.
pub proof fn lemma_first_match_bounds(ms: Seq<MonitorBounds>, p: spec_fn(MonitorBounds) -> bool)
    ensures
        match first_match(ms, p) {
            Some(i) => 0 <= i < ms.len() && p(ms[i]) && forall|k: int| 0 <= k < i ==> !p(#[trigger] ms[k]),
            None => forall|k: int| 0 <= k < ms.len() ==> !p(#[trigger] ms[k]),
        },
    decreases ms.len(),
{
    if ms.len() > 0 {
        lemma_first_match_bounds(ms.drop_last(), p);
        assert forall|k: int| 0 <= k < ms.len() - 1 implies ms[k] == ms.drop_last()[k] by {}
    }
}

/// With at least one monitor and no id asked for, choosing a monitor never
/// fails: it yields the first monitor flagged primary, or the first monitor
/// when none is flagged.
pub proof fn lemma_default_selection(ms: Seq<MonitorBounds>)
    requires
        ms.len() > 0,
    ensures
        selection_outcome(ms, None) is Ok,
        (exists|i: int| 0 <= i < ms.len() && ms[i].is_primary) ==> exists|i: int|
            0 <= i < ms.len() && ms[i].is_primary && (forall|k: int|
                0 <= k < i ==> !(#[trigger] ms[k]).is_primary) && selection_outcome(ms, None)
                == Ok::<MonitorBounds, Seq<char>>(ms[i]),
        (forall|i: int| 0 <= i < ms.len() ==> !(#[trigger] ms[i]).is_primary) ==> selection_outcome(
            ms,
            None,
        ) == Ok::<MonitorBounds, Seq<char>>(ms[0]),
{
    lemma_first_match_bounds(ms, primary_test());
}

/// With no monitor attached, choosing a monitor by id or by default, and
/// choosing the monitor under the cursor, all fail with "No monitor detected".
pub proof fn lemma_empty_topology_fails(wanted_id: Option<u32>, px: i32, py: i32)
    ensures
        selection_outcome(Seq::empty(), wanted_id) == Err::<MonitorBounds, Seq<char>>(
            "No monitor detected"@,
        ),
        cursor_outcome(Seq::empty(), px, py) == Err::<MonitorBounds, Seq<char>>(
            "No monitor detected"@,
        ),
{
}

/// A test on one monitor, as the searches below apply it.
enum MonitorQuery {
    Primary,
    WithId(u32),
    AtPoint(i32, i32),
}

spec fn query_test(q: MonitorQuery) -> spec_fn(MonitorBounds) -> bool {
    match q {
        MonitorQuery::Primary => primary_test(),
        MonitorQuery::WithId(id) => id_test(id),
        MonitorQuery::AtPoint(px, py) => point_test(px, py),
    }
}

/// Whether `(x, y)` lies in the half-open rectangle of `monitor`.
fn is_point_inside_monitor(monitor: &MonitorBounds, x: i32, y: i32) -> (r: bool)
    ensures
        r == contains_point(*monitor, x, y),
{
    let right: i64 = monitor.x as i64 + monitor.width as i64;
    let bottom: i64 = monitor.y as i64 + monitor.height as i64;
    monitor.x <= x && (x as i64) < right && monitor.y <= y && (y as i64) < bottom
}

fn query_holds(m: &MonitorBounds, q: &MonitorQuery) -> (r: bool)
    ensures
        r == query_test(*q)(*m),
{
    match q {
        MonitorQuery::Primary => m.is_primary,
        MonitorQuery::WithId(id) => match m.monitor_id {
            Some(mid) => mid == *id,
            None => false,
        },
        MonitorQuery::AtPoint(px, py) => is_point_inside_monitor(m, *px, *py),
    }
}

/// Index of the first monitor in `monitors` that passes `q`.
fn find_first(monitors: &[MonitorBounds], q: &MonitorQuery) -> (r: Option<usize>)
    ensures
        match r {
            Some(k) => k < monitors@.len() && first_match(monitors@, query_test(*q)) == Some(
                k as int,
            ),
            None => first_match(monitors@, query_test(*q)) is None,
        },
{
    let ghost p = query_test(*q);
    let mut i: usize = 0;
    while i < monitors.len()
        invariant
            i <= monitors@.len(),
            p == query_test(*q),
            first_match(monitors@.subrange(0, i as int), p) is None,
        decreases monitors@.len() - i,
    {
        proof {
            lemma_first_match_prefix(monitors@, i as int);
        }
        if query_holds(&monitors[i], q) {
            proof {
                lemma_first_match_extends(monitors@, p, i as int);
            }
            return Some(i);
        }
        i = i + 1;
    }
    assert(monitors@.subrange(0, i as int) =~= monitors@);
    None
}

fn no_monitor_error() -> (r: String)
    ensures
        r@ == no_monitor_message(),
{
    String::from_str("No monitor detected")
}

fn monitor_not_found_error(id: u32) -> (r: String)
    ensures
        r@ == monitor_not_found_message(id),
{
    let mut s = String::from_str("Monitor ");
    crate::text::push_decimal(&mut s, id);
    s.append(" was not found");
    s
}

/// The monitor of `monitors` used when none is named: the first flagged
/// primary, else the first one.
fn default_of(monitors: &[MonitorBounds]) -> (r: MonitorBounds)
    requires
        monitors@.len() > 0,
    ensures
        r == default_monitor(monitors@),
{
    match find_first(monitors, &MonitorQuery::Primary) {
        Some(k) => monitors[k],
        None => monitors[0],
    }
}

/// Position in `monitors` of the monitor that `select_monitor` chooses.
pub fn select_monitor_index(monitors: &[MonitorBounds], wanted_id: Option<u32>) -> (r: Result<
    usize,
    String,
>)
    ensures
        r matches Ok(k) ==> k < monitors@.len() && selection_outcome(monitors@, wanted_id) == Ok::<
            MonitorBounds,
            Seq<char>,
        >(monitors@[k as int]),
        r is Err ==> selection_outcome(monitors@, wanted_id) == Err::<MonitorBounds, Seq<char>>(
            r->Err_0@,
        ),
        r is Ok ==> match wanted_id {
            Some(id) => first_match(monitors@, id_test(id)) == Some(r->Ok_0 as int),
            None => match first_match(monitors@, primary_test()) {
                Some(i) => r->Ok_0 == i,
                None => r->Ok_0 == 0,
            },
        },
{
    if monitors.len() == 0 {
        return Err(no_monitor_error());
    }
    match wanted_id {
        Some(id) => match find_first(monitors, &MonitorQuery::WithId(id)) {
            Some(k) => Ok(k),
            None => Err(monitor_not_found_error(id)),
        },
        None => match find_first(monitors, &MonitorQuery::Primary) {
            Some(k) => Ok(k),
            None => Ok(0),
        },
    }
}

/// Chooses the monitor with id `wanted_id`, or the default monitor when no id
/// is given. Fails when the list is empty or when no monitor has the id.
pub fn select_monitor(monitors: &[MonitorBounds], wanted_id: Option<u32>) -> (r: Result<
    MonitorBounds,
    String,
>)
    ensures
        message_view(r) == selection_outcome(monitors@, wanted_id),
{
    match select_monitor_index(monitors, wanted_id) {
        Ok(k) => Ok(monitors[k]),
        Err(e) => Err(e),
    }
}

/// The first monitor whose half-open rectangle holds `(x, y)`.
pub fn resolve_monitor_at_point(monitors: &[MonitorBounds], x: i32, y: i32) -> (r: Option<
    MonitorBounds,
>)
    ensures
        r == (match first_match(monitors@, point_test(x, y)) {
            Some(i) => Some(monitors@[i]),
            None => None::<MonitorBounds>,
        }),
{
    match find_first(monitors, &MonitorQuery::AtPoint(x, y)) {
        Some(k) => Some(monitors[k]),
        None => None,
    }
}

/// Chooses the monitor under the cursor at `(x, y)`, falling back to the
/// default monitor when no monitor holds the point. Fails only on an empty list.
pub fn resolve_cursor_monitor(monitors: &[MonitorBounds], x: i32, y: i32) -> (r: Result<
    MonitorBounds,
    String,
>)
    ensures
        message_view(r) == cursor_outcome(monitors@, x, y),
{
    if monitors.len() == 0 {
        return Err(no_monitor_error());
    }
    match resolve_monitor_at_point(monitors, x, y) {
        Some(m) => Ok(m),
        None => Ok(default_of(monitors)),
    }
}

/// Asks `provider` for the monitors and chooses one as `select_monitor` does.
/// A provider error is passed on as it came.
pub fn resolve_monitor_bounds_with_provider<P: MonitorProvider>(
    provider: &P,
    monitor_id: Option<u32>,
) -> (r: Result<MonitorBounds, String>)
    ensures
        r is Ok ==> exists|ms: Seq<MonitorBounds>| selection_outcome(ms, monitor_id) == Ok::<
            MonitorBounds,
            Seq<char>,
        >(r->Ok_0),
        monitor_id is Some && r is Ok ==> r->Ok_0.monitor_id == monitor_id,
        provider.listing() matches Some(l) ==> message_view(r) == bounds_with_listing(
            l,
            monitor_id,
        ),
{
    let monitors = provider.list_monitors()?;
    let r = select_monitor(monitors.as_slice(), monitor_id);
    proof {
        if monitor_id is Some && r is Ok {
            lemma_first_match_bounds(monitors@, id_test(monitor_id->Some_0));
        }
    }
    r
}

/// Asks for the monitors and the cursor position and chooses the monitor under
/// the cursor as `resolve_cursor_monitor` does. The monitors are listed first:
/// with none attached the cursor is never read. Provider errors are passed on
/// as they came.
pub fn resolve_cursor_monitor_with_provider<P: MonitorProvider, C: CursorPositionProvider>(
    monitor_provider: &P,
    cursor_provider: &C,
) -> (r: Result<MonitorBounds, String>)
    ensures
        r is Ok ==> exists|ms: Seq<MonitorBounds>, px: i32, py: i32|
            ms.len() > 0 && cursor_outcome(ms, px, py) == Ok::<MonitorBounds, Seq<char>>(
                r->Ok_0,
            ),
        monitor_provider.listing() is Some && cursor_provider.position() is Some ==> message_view(r)
            == cursor_with_answers(
            monitor_provider.listing()->Some_0,
            cursor_provider.position()->Some_0,
        ),
        monitor_provider.listing() matches Some(Err(e)) ==> message_view(r) == Err::<
            MonitorBounds,
            Seq<char>,
        >(e),
        monitor_provider.listing() == Some(Ok::<Seq<MonitorBounds>, Seq<char>>(Seq::empty()))
            ==> message_view(r) == Err::<MonitorBounds, Seq<char>>(no_monitor_message()),
{
    let monitors = monitor_provider.list_monitors()?;
    if monitors.len() == 0 {
        return Err(no_monitor_error());
    }
    let (cursor_x, cursor_y) = cursor_provider.get_position()?;
    resolve_cursor_monitor(monitors.as_slice(), cursor_x, cursor_y)
}

/// Once `ms[i]` is the first match in the prefix up to `i`, it is the first
/// match of all of `ms`.
proof fn lemma_first_match_extends(ms: Seq<MonitorBounds>, p: spec_fn(MonitorBounds) -> bool, i: int)
    requires
        0 <= i < ms.len(),
        first_match(ms.subrange(0, i + 1), p) == Some(i),
    ensures
        first_match(ms, p) == Some(i),
    decreases ms.len(),
{
    if ms.len() == i + 1 {
        assert(ms.subrange(0, i + 1) =~= ms);
    } else {
        assert(ms.drop_last().subrange(0, i + 1) =~= ms.subrange(0, i + 1));
        lemma_first_match_extends(ms.drop_last(), p, i);
    }
}

} // verus!
