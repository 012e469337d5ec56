//! The whole pipeline in one thread: one sender, the bounded hand-off and
//! the writer, taking turns.
use vstd::prelude::*;
use crate::channel::{Aggregator, SendOutcome};
use crate::measurement::Measurement;
use crate::store::{adds, Recorded, Store, StoreCall};
use crate::writer::{BatchWriter, PumpReport};

verus! {

/// Carries `items` to the store through a hand-off that holds `capacity`
/// measurements. Whenever the hand-off is full the writer takes its turn,
/// and the measurement that was turned away is offered again. When the last
/// one is sent the sender is released and the writer drains what is left
/// and flushes.
///
/// Whatever the capacity and whatever the store answers, the store is
/// handed every measurement once, in the order given, and is flushed once,
/// after the last of them.
pub fn deliver<S: Store>(
    items: Vec<Measurement>,
    capacity: usize,
    store: &mut Recorded<S>,
) -> (report: PumpReport)
    requires
        capacity > 0,
    ensures
        final(store).calls() == old(store).calls() + adds(items@) + seq![StoreCall::Flush],
        report.attempted == items@.len(),
        report.write_errors@.len() <= report.attempted,
        report.flushed,
{
    let ghost before = store.calls();
    let ghost all = items@;
    let mut channel = Aggregator::new(capacity, 1);
    let mut writer = BatchWriter::new();
    let total: usize = items.len();
    let mut attempted: usize = 0;
    let mut write_errors: Vec<String> = Vec::new();
    assert(all.take(0) =~= Seq::<Measurement>::empty());
    assert(before + adds(Seq::<Measurement>::empty()) =~= before);
    for item in it: items
        invariant
            it.seq() == all,
            all.len() == total,
            channel.wf(),
            channel.senders() == 1,
            channel.capacity() == capacity,
            !writer.closed(),
            store.calls() + adds(channel.buffered()) == before + adds(all.take(it.index() as int)),
            attempted + channel.buffered().len() == it.index(),
            write_errors@.len() <= attempted,
    {
        let ghost sent = it.index() as int;
        let ghost held = channel.buffered();
        let ghost called = store.calls();
        assert(all.take(sent + 1) =~= all.take(sent).push(item));
        assert(adds(all.take(sent + 1)) =~= adds(all.take(sent)).push(StoreCall::Add(item)));
        assert(adds(held.push(item)) =~= adds(held).push(StoreCall::Add(item)));
        assert(called + adds(held).push(StoreCall::Add(item)) =~= (called + adds(held)).push(
            StoreCall::Add(item),
        ));
        match channel.try_send(item) {
            SendOutcome::Accepted => {},
            SendOutcome::Full(back) => {
                let mut round = writer.pump(&mut channel, store);
                attempted = attempted + round.attempted;
                write_errors.append(&mut round.write_errors);
                assert(store.calls() =~= called + adds(held));
                let again = channel.try_send(back);
                assert(again is Accepted);
                assert(channel.buffered() =~= seq![item]);
                assert(adds(seq![item]) =~= seq![StoreCall::Add(item)]);
                assert(store.calls() + seq![StoreCall::Add(item)] =~= (called + adds(held)).push(
                    StoreCall::Add(item),
                ));
            },
        }
    }
    channel.release_sender();
    assert(all.take(all.len() as int) =~= all);
    let mut last = writer.pump(&mut channel, store);
    attempted = attempted + last.attempted;
    write_errors.append(&mut last.write_errors);
    PumpReport { attempted, write_errors, flushed: last.flushed, flush_error: last.flush_error }
}

} // verus!
