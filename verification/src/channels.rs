//! Reading a channel without waiting.

use vstd::prelude::*;

verus! {

/// A receiving end of a channel of the `crossbeam-channel` crate.
#[verifier::external_type_specification]
#[verifier::external_body]
#[verifier::reject_recursive_types(T)]
pub struct ExReceiver<T>(crossbeam_channel::Receiver<T>);

/// What one look at a channel finds.
#[derive(Debug, PartialEq, Eq)]
pub enum Received<T> {
    /// The next message.
    Item(T),
    /// No message now; more may come.
    Empty,
    /// No message, and nobody is left to send one.
    Closed,
}

/// Look at a channel once, with `crossbeam_channel::Receiver::try_recv`, which
/// never waits. What it finds is up to the senders on other threads, so nothing
/// is stated of it.
#[verifier::external_body]
fn try_receive<T>(rx: &crossbeam_channel::Receiver<T>) -> (r: Received<T>) {
    match rx.try_recv() {
        Ok(item) => Received::Item(item),
        Err(crossbeam_channel::TryRecvError::Empty) => Received::Empty,
        Err(crossbeam_channel::TryRecvError::Disconnected) => Received::Closed,
    }
}

/// Whether a look at `rx` found this.
pub closed spec fn look_finds<T>(rx: &crossbeam_channel::Receiver<T>, found: Received<T>) -> bool {
    call_ensures(try_receive::<T>, (rx,), found)
}

/// What has been read of a channel so far.
#[derive(Debug, PartialEq, Eq)]
pub enum Reading<T> {
    /// These messages, and perhaps more.
    Going(Vec<T>),
    /// These messages, and no more for now.
    Paused(Vec<T>),
    /// These messages, and no more ever.
    Ended(Vec<T>),
}

/// Take in what one look at a channel found.
pub fn read_on<T>(so_far: Vec<T>, found: Received<T>) -> (r: Reading<T>)
    ensures
        match found {
            Received::Item(item) => r matches Reading::Going(items) && items@ == so_far@.push(item),
            Received::Empty => r == Reading::Paused(so_far),
            Received::Closed => r == Reading::Ended(so_far),
        },
{
    match found {
        Received::Item(item) => {
            let mut items = so_far;
            items.push(item);
            Reading::Going(items)
        },
        Received::Empty => Reading::Paused(so_far),
        Received::Closed => Reading::Ended(so_far),
    }
}

/// Whether `look` at a channel can find this, and leave the channel so.
pub open spec fn finds<W, T, F: Fn(W) -> (Received<T>, W)>(
    look: F,
    before: W,
    found: Received<T>,
    after: W,
) -> bool {
    look.ensures((before,), (found, after))
}

/// What the look that ends a row of looks finds.
pub open spec fn nothing_found<T>(closed: bool) -> Received<T> {
    if closed {
        Received::Closed
    } else {
        Received::Empty
    }
}

/// Whether a row of looks, each at the channel as the look before left it, found
/// exactly these messages in this order and led from `before` to `after`.
pub open spec fn read_by<W, T, F: Fn(W) -> (Received<T>, W)>(
    look: F,
    before: W,
    items: Seq<T>,
    after: W,
) -> bool
    decreases items.len(),
{
    if items.len() == 0 {
        after == before
    } else {
        exists|between: W| #[trigger]
            finds(look, between, Received::Item(items.last()), after) && read_by(
                look,
                before,
                items.drop_last(),
                between,
            )
    }
}

/// Whether a channel was read to its end, from `before` to `after`: a row of
/// looks found exactly these messages, and one more look found none, and said
/// whether the channel is closed. The row also ends after the most looks that can
/// be counted.
pub open spec fn drained<W, T, F: Fn(W) -> (Received<T>, W)>(
    look: F,
    before: W,
    items: Seq<T>,
    closed: bool,
    after: W,
) -> bool {
    exists|at: W| #[trigger]
        read_by(look, before, items, at) && {
            ||| finds(look, at, nothing_found(closed), after)
            ||| items.len() == u64::MAX && !closed && after == at
        }
}

/// Read every message that is waiting, and whether the channel is closed. Each
/// look is handed the channel as the look before left it.
fn read_waiting<W, T, F: Fn(W) -> (Received<T>, W)>(channel: W, look: F) -> (r: (Vec<T>, bool, W))
    requires
        forall|at: W| #[trigger] look.requires((at,)),
    ensures
        drained(look, channel, r.0@, r.1, r.2),
{
    let mut at = channel;
    let mut items: Vec<T> = Vec::new();
    let mut n: u64 = 0;
    while n < u64::MAX
        invariant
            n == items@.len(),
            forall|at: W| #[trigger] look.requires((at,)),
            read_by(look, channel, items@, at),
        decreases u64::MAX - n,
    {
        let ghost left = at;
        let ghost so_far = items@;
        let (found, next) = look(at);
        at = next;
        assert(finds(look, left, found, at));
        match read_on(items, found) {
            Reading::Going(more) => {
                items = more;
                assert(items@.drop_last() =~= so_far);
                assert(finds(look, left, Received::Item(items@.last()), at));
            },
            Reading::Paused(all) => {
                let read = (all, false, at);
                assert(finds(look, left, nothing_found(read.1), read.2));
                return read;
            },
            Reading::Ended(all) => {
                let read = (all, true, at);
                assert(finds(look, left, nothing_found(read.1), read.2));
                return read;
            },
        }
        n = n + 1;
    }
    (items, false, at)
}

/// Read every message that `look` finds on a channel: `Some` of them, in the
/// order in which they were found, or `None` once the channel is closed, so that
/// the caller stops looking. No look is left out of the result, and none is made
/// after the first that finds no message. The channel comes back as the last look
/// left it.
pub fn drain_with<W, T, F: Fn(W) -> (Received<T>, W)>(channel: W, look: F) -> (r: (
    Option<Vec<T>>,
    W,
))
    requires
        forall|at: W| #[trigger] look.requires((at,)),
    ensures
        exists|items: Seq<T>, closed: bool| #[trigger]
            drained(look, channel, items, closed, r.1) && if closed {
                r.0 is None
            } else {
                r.0 matches Some(all) && all@ == items
            },
{
    let (items, closed, after) = read_waiting(channel, look);
    let ghost all = items@;
    let r = if closed {
        (None, after)
    } else {
        (Some(items), after)
    };
    assert(drained(look, channel, all, closed, r.1));
    r
}

/// Take every message that `look` finds off a channel, open or closed. They are
/// handed back for the record.
pub fn discard_with<W, T, F: Fn(W) -> (Received<T>, W)>(channel: W, look: F) -> (r: (Vec<T>, W))
    requires
        forall|at: W| #[trigger] look.requires((at,)),
    ensures
        exists|closed: bool| #[trigger] drained(look, channel, r.0@, closed, r.1),
{
    let (items, closed, after) = read_waiting(channel, look);
    let r = (items, after);
    assert(drained(look, channel, r.0@, closed, r.1));
    r
}

/// Whether looks at `rx` found these messages, and then, once there was none,
/// whether it is closed.
pub open spec fn drained_from<T>(
    rx: &crossbeam_channel::Receiver<T>,
    items: Seq<T>,
    closed: bool,
) -> bool {
    &&& forall|i: int| 0 <= i < items.len() ==> look_finds(rx, Received::Item(#[trigger] items[i]))
    &&& {
        ||| look_finds(rx, nothing_found(closed))
        ||| items.len() == u64::MAX && !closed
    }
}

/// Looks that leave the handle on a channel as it is all look at the same channel.
proof fn looks_stay_at_one_channel<W, T, F: Fn(W) -> (Received<T>, W)>(
    look: F,
    before: W,
    items: Seq<T>,
    after: W,
)
    requires
        read_by(look, before, items, after),
        forall|at: W, found: Received<T>, next: W| #[trigger]
            finds(look, at, found, next) ==> next == at,
    ensures
        after == before,
        forall|i: int|
            0 <= i < items.len() ==> finds(
                look,
                before,
                Received::Item(#[trigger] items[i]),
                before,
            ),
    decreases items.len(),
{
    if items.len() > 0 {
        let earlier = items.drop_last();
        let between = choose|between: W| #[trigger]
            finds(look, between, Received::Item(items.last()), after) && read_by(
                look,
                before,
                earlier,
                between,
            );
        looks_stay_at_one_channel(look, before, earlier, between);
        assert forall|i: int| 0 <= i < items.len() implies finds(
            look,
            before,
            Received::Item(#[trigger] items[i]),
            before,
        ) by {
            if i < earlier.len() {
                assert(earlier[i] == items[i]);
            }
        }
    }
}

/// Look at a channel once, and hand it back for the next look.
fn look_at<'a, T>(rx: &'a crossbeam_channel::Receiver<T>) -> (r: (
    Received<T>,
    &'a crossbeam_channel::Receiver<T>,
))
    ensures
        r.1 == rx,
        look_finds(rx, r.0),
{
    (try_receive(rx), rx)
}

/// A channel that [`look_at`] read to its end was drained.
proof fn looks_drain_the_channel<T>(
    rx: &crossbeam_channel::Receiver<T>,
    items: Seq<T>,
    closed: bool,
    after: &crossbeam_channel::Receiver<T>,
)
    requires
        drained(look_at::<T>, rx, items, closed, after),
    ensures
        drained_from(rx, items, closed),
{
    let at = choose|at: &crossbeam_channel::Receiver<T>| #[trigger]
        read_by(look_at::<T>, rx, items, at) && {
            ||| finds(look_at::<T>, at, nothing_found(closed), after)
            ||| items.len() == u64::MAX && !closed && after == at
        };
    looks_stay_at_one_channel(look_at::<T>, rx, items, at);
}

/// Read every message that is waiting, with [`drain_with`]: `Some` of them, or
/// `None` once the channel is closed, so that the caller stops looking. Stated
/// here is that looks at `rx` found what comes back; that it comes back whole and
/// in the order in which it was found is stated of [`drain_with`], since what a
/// look finds is up to the senders.
pub fn drain_pending<T>(rx: &crossbeam_channel::Receiver<T>) -> (r: Option<Vec<T>>)
    ensures
        exists|items: Seq<T>, closed: bool| #[trigger]
            drained_from(rx, items, closed) && if closed {
                r is None
            } else {
                r matches Some(all) && all@ == items
            },
{
    let (r, after) = drain_with(rx, look_at::<T>);
    proof {
        let (items, closed) = choose|items: Seq<T>, closed: bool| #[trigger]
            drained(look_at::<T>, rx, items, closed, after) && if closed {
                r is None
            } else {
                r matches Some(all) && all@ == items
            };
        looks_drain_the_channel(rx, items, closed, after);
    }
    r
}

/// Take every message that is waiting off the channel, with [`discard_with`], so
/// that it is not acted on later. They are handed back for the record; that they
/// come back whole and in order is stated of [`discard_with`].
pub fn drain_stale<T>(rx: &crossbeam_channel::Receiver<T>) -> (r: Vec<T>)
    ensures
        exists|closed: bool| #[trigger] drained_from(rx, r@, closed),
{
    let (r, after) = discard_with(rx, look_at::<T>);
    proof {
        let closed = choose|closed: bool| #[trigger]
            drained(look_at::<T>, rx, r@, closed, after);
        looks_drain_the_channel(rx, r@, closed, after);
    }
    r
}

/// Whether `look` reads a queue: it takes the oldest message off where there is
/// one, and says otherwise whether the queue is still open. `holds` are the
/// messages that are waiting, oldest first, and `open` is whether somebody is left
/// who could send more.
pub open spec fn reads_a_queue<W, T, F: Fn(W) -> (Received<T>, W)>(
    look: F,
    holds: spec_fn(W) -> Seq<T>,
    open: spec_fn(W) -> bool,
) -> bool {
    forall|at: W, found: Received<T>, next: W| #[trigger]
        finds(look, at, found, next) ==> {
            &&& open(next) == open(at)
            &&& if holds(at).len() > 0 {
                found == Received::Item(holds(at).first()) && holds(next) == holds(at).drop_first()
            } else {
                holds(next) == holds(at) && if open(at) {
                    found is Empty
                } else {
                    found is Closed
                }
            }
        }
}

/// What a row of looks at a queue found is what the queue held first, and the rest
/// is still there.
proof fn looks_take_from_the_front<W, T, F: Fn(W) -> (Received<T>, W)>(
    look: F,
    holds: spec_fn(W) -> Seq<T>,
    open: spec_fn(W) -> bool,
    before: W,
    items: Seq<T>,
    after: W,
)
    requires
        reads_a_queue(look, holds, open),
        read_by(look, before, items, after),
    ensures
        items + holds(after) == holds(before),
        open(after) == open(before),
    decreases items.len(),
{
    if items.len() > 0 {
        let earlier = items.drop_last();
        let between = choose|between: W| #[trigger]
            finds(look, between, Received::Item(items.last()), after) && read_by(
                look,
                before,
                earlier,
                between,
            );
        looks_take_from_the_front(look, holds, open, before, earlier, between);
        assert(holds(between) =~= seq![items.last()] + holds(after));
        assert(items =~= earlier.push(items.last()));
        assert(items + holds(after) =~= earlier + holds(between));
    }
}

/// A queue that nobody else touches is drained of everything it holds, oldest
/// message first, and is empty afterwards. It turns out closed exactly if nobody
/// is left who could send more, even where messages were still waiting.
pub proof fn a_queue_is_drained_to_its_end<W, T, F: Fn(W) -> (Received<T>, W)>(
    look: F,
    holds: spec_fn(W) -> Seq<T>,
    open: spec_fn(W) -> bool,
    before: W,
    items: Seq<T>,
    closed: bool,
    after: W,
)
    requires
        reads_a_queue(look, holds, open),
        drained(look, before, items, closed, after),
        holds(before).len() < u64::MAX,
    ensures
        items == holds(before),
        closed == !open(before),
        holds(after).len() == 0,
        open(after) == open(before),
{
    let at = choose|at: W| #[trigger]
        read_by(look, before, items, at) && {
            ||| finds(look, at, nothing_found(closed), after)
            ||| items.len() == u64::MAX && !closed && after == at
        };
    looks_take_from_the_front(look, holds, open, before, items, at);
    assert((items + holds(at)).len() == items.len() + holds(at).len());
    assert(items + holds(at) =~= items);
}

/// What comes back of a drain is everything that the looks found, in order, and
/// nothing else; it is withheld exactly if the last look said that the channel is
/// closed.
pub proof fn a_drain_ends_with_a_look_that_finds_nothing<
    W,
    T,
    F: Fn(W) -> (Received<T>, W),
>(look: F, before: W, items: Seq<T>, closed: bool, after: W)
    requires
        drained(look, before, items, closed, after),
        items.len() < u64::MAX,
    ensures
        exists|at: W|
            #![trigger read_by(look, before, items, at)]
            read_by(look, before, items, at) && look.ensures(
                (at,),
                (
                    if closed {
                        Received::Closed
                    } else {
                        Received::Empty
                    },
                    after,
                ),
            ),
{
}

/// A row of looks finds one message after the other, each at the channel as the
/// look before left it.
pub proof fn looks_follow_one_another<W, T, F: Fn(W) -> (Received<T>, W)>(
    look: F,
    before: W,
    items: Seq<T>,
    after: W,
)
    requires
        read_by(look, before, items, after),
    ensures
        items.len() == 0 ==> after == before,
        items.len() > 0 ==> exists|between: W|
            #![trigger finds(look, between, Received::Item(items.last()), after)]
            read_by(look, before, items.drop_last(), between) && look.ensures(
                (between,),
                (Received::Item(items.last()), after),
            ),
{
}

/// Everything that was read off a channel was found by a look at that channel, and
/// so was the end of the reading.
pub proof fn what_was_read_was_found<T>(
    rx: &crossbeam_channel::Receiver<T>,
    items: Seq<T>,
    closed: bool,
    i: int,
)
    requires
        drained_from(rx, items, closed),
        items.len() < u64::MAX,
    ensures
        0 <= i < items.len() ==> look_finds(rx, Received::Item(items[i])),
        closed ==> look_finds(rx, Received::<T>::Closed),
        !closed ==> look_finds(rx, Received::<T>::Empty),
{
}

} // verus!
