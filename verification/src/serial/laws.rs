//! What the driver's decisions amount to, over every reading of the UART.
use vstd::prelude::*;
use super::{paired_wiring, read_bytes_step, read_outcome, receive_wiring, transfer_at};
use super::transmit_wiring;
use super::write_bytes_step;
use super::{Command, Error, Flags, NotDone, Received, Transfer};

verus! {

/// The commands that queue `bytes`, one for each word and in their order.
pub open spec fn transmits(bytes: Seq<u8>) -> Seq<Command> {
    Seq::new(bytes.len(), |i: int| Command::Transmit(bytes[i]))
}

/// How many words of a transfer of `total` have been moved in `state`. For a
/// failed transfer it is not known and `total` stands in.
pub open spec fn words_moved(state: Transfer, total: nat) -> nat {
    match state {
        Transfer::Pending(moved) => moved as nat,
        _ => total,
    }
}

/// A transfer of `buffer` to the line, polled once for each reading in
/// `polls`, from `state` on: the state that it ends in, and the commands that
/// it gave, in their order.
pub open spec fn write_bytes_run(buffer: Seq<u8>, state: Transfer, polls: Seq<Flags>) -> (
    Transfer,
    Seq<Command>,
)
    decreases polls.len(),
{
    if polls.len() == 0 {
        (state, Seq::empty())
    } else {
        let step = write_bytes_step(buffer, state, polls[0]);
        let rest = write_bytes_run(buffer, step.0, polls.drop_first());
        match step.1 {
            Some(command) => (rest.0, seq![command] + rest.1),
            None => rest,
        }
    }
}

/// Whether the UART takes a word at once when it shows these flags.
pub open spec fn takes_word(flags: Flags) -> bool {
    !flags.busy && !flags.transmit_fifo_full
}

/// Only the three pins of each line, each in its one mode, are wired to the
/// UART, and no pin is wired to both lines.
pub proof fn lemma_wiring_table(index: u8, code: u32)
    ensures
        transmit_wiring(index, code) <==> (index == 14 && code == 0b100) || (index == 32 && code
            == 0b111) || (index == 36 && code == 0b110),
        receive_wiring(index, code) <==> (index == 15 && code == 0b100) || (index == 33 && code
            == 0b111) || (index == 37 && code == 0b110),
        !(transmit_wiring(index, code) && receive_wiring(index, code)),
{
}

/// Only three pairs of pins are wirings of the UART: 14 with 15 on alternate
/// function 0, 32 with 33 on alternate function 3, and 36 with 37 on alternate
/// function 2. Each pin of a wiring is wired to its line, and the transmit
/// pin of a wiring fixes its receive pin: no pair mixes two wirings.
pub proof fn lemma_paired_wiring_table(tx: u8, tx_code: u32, rx: u8, rx_code: u32)
    ensures
        paired_wiring(tx, tx_code, rx, rx_code) <==> (tx == 14 && tx_code == 0b100 && rx == 15
            && rx_code == 0b100) || (tx == 32 && tx_code == 0b111 && rx == 33 && rx_code
            == 0b111) || (tx == 36 && tx_code == 0b110 && rx == 37 && rx_code == 0b110),
        paired_wiring(tx, tx_code, rx, rx_code) ==> transmit_wiring(tx, tx_code)
            && receive_wiring(rx, rx_code),
        paired_wiring(tx, tx_code, rx, rx_code) ==> rx == tx + 1 && rx_code == tx_code,
        transmit_wiring(tx, tx_code) && receive_wiring(rx, rx_code) && rx != tx + 1
            ==> !paired_wiring(tx, tx_code, rx, rx_code),
{
}

/// A read reports a fault exactly when the UART flagged one with the word,
/// and then the kind of the first flag in the order overrun, parity, framing.
/// The flags of the flag register change nothing about it.
pub proof fn lemma_faults_by_flag(received: Received, flags: Flags)
    ensures
        read_outcome(received, flags) matches Err(NotDone::Fault(_)) <==> received.overrun
            || received.parity || received.framing,
        read_outcome(received, flags) == Err::<u8, NotDone>(NotDone::Fault(Error::Overrun))
            <==> received.overrun,
        read_outcome(received, flags) == Err::<u8, NotDone>(NotDone::Fault(Error::Parity))
            <==> !received.overrun && received.parity,
        read_outcome(received, flags) == Err::<u8, NotDone>(NotDone::Fault(Error::Framing))
            <==> !received.overrun && !received.parity && received.framing,
{
}

/// Without a flagged fault a read never reports one: it gives the word if
/// the receive FIFO holds one, and `WouldBlock` if it is empty.
pub proof fn lemma_no_fault_without_flag(received: Received, flags: Flags)
    requires
        !received.overrun,
        !received.parity,
        !received.framing,
    ensures
        flags.receive_fifo_empty ==> read_outcome(received, flags) == Err::<u8, NotDone>(
            NotDone::WouldBlock,
        ),
        !flags.receive_fifo_empty ==> read_outcome(received, flags) == Ok::<u8, NotDone>(
            received.data,
        ),
{
}

/// A transfer to the line, from any state that it can be in: it never
/// fails, it never goes back, and the commands that it gives queue the words
/// between where it was and where it is, each once and in their order.
pub proof fn lemma_write_bytes_run(buffer: Seq<u8>, state: Transfer, polls: Seq<Flags>)
    requires
        buffer.len() <= usize::MAX,
        !(state is Failed),
        state matches Transfer::Pending(sent) ==> sent < buffer.len(),
    ensures
        ({
            let run = write_bytes_run(buffer, state, polls);
            let from = words_moved(state, buffer.len()) as int;
            let to = words_moved(run.0, buffer.len()) as int;
            &&& !(run.0 is Failed)
            &&& run.0 matches Transfer::Pending(sent) ==> sent < buffer.len()
            &&& from <= to <= buffer.len()
            &&& run.1 == transmits(buffer.subrange(from, to))
        }),
    decreases polls.len(),
{
    let total = buffer.len();
    let from = words_moved(state, total) as int;
    if polls.len() == 0 {
        assert(transmits(buffer.subrange(from, from)) =~= Seq::<Command>::empty());
    } else {
        let step = write_bytes_step(buffer, state, polls[0]);
        let rest = write_bytes_run(buffer, step.0, polls.drop_first());
        lemma_write_bytes_run(buffer, step.0, polls.drop_first());
        let to = words_moved(rest.0, total) as int;
        match step.1 {
            Some(command) => {
                assert(command == Command::Transmit(buffer[from]));
                assert(words_moved(step.0, total) == from + 1);
                assert(seq![command] + transmits(buffer.subrange(from + 1, to)) =~= transmits(
                    buffer.subrange(from, to),
                ));
            },
            None => {
                assert(words_moved(step.0, total) == from);
            },
        }
    }
}

/// A transfer of no words is over before it is polled, and gives no command
/// however often it is polled.
pub proof fn lemma_write_bytes_of_nothing(polls: Seq<Flags>)
    ensures
        transfer_at(0, 0) == Transfer::Finished,
        write_bytes_run(Seq::<u8>::empty(), transfer_at(0, 0), polls) == (
            Transfer::Finished,
            Seq::<Command>::empty(),
        ),
{
    let buffer = Seq::<u8>::empty();
    lemma_write_bytes_run(buffer, Transfer::Finished, polls);
    assert(transmits(buffer.subrange(0, 0)) =~= Seq::<Command>::empty());
}

/// A transfer to the line from its beginning: whatever the UART shows, the
/// words go out in the order of the buffer, none twice and none left out
/// between two others; and when the transfer is finished, all of them have
/// gone out.
pub proof fn lemma_write_bytes_in_order(buffer: Seq<u8>, polls: Seq<Flags>)
    requires
        buffer.len() <= usize::MAX,
    ensures
        ({
            let run = write_bytes_run(buffer, transfer_at(0, buffer.len()), polls);
            let sent = words_moved(run.0, buffer.len()) as int;
            &&& !(run.0 is Failed)
            &&& sent <= buffer.len()
            &&& run.1 == transmits(buffer.take(sent))
            &&& run.0 is Finished ==> run.1 == transmits(buffer)
        }),
{
    let state = transfer_at(0, buffer.len());
    lemma_write_bytes_run(buffer, state, polls);
    let run = write_bytes_run(buffer, state, polls);
    let sent = words_moved(run.0, buffer.len()) as int;
    assert(buffer.subrange(0, sent) =~= buffer.take(sent));
    if run.0 is Finished {
        assert(buffer.take(sent) =~= buffer);
    }
}

/// A transfer to the line comes to an end: when the UART takes a word at
/// every poll, as many polls as there are words left finish it.
pub proof fn lemma_write_bytes_completes(buffer: Seq<u8>, state: Transfer, polls: Seq<Flags>)
    requires
        buffer.len() <= usize::MAX,
        !(state is Failed),
        state matches Transfer::Pending(sent) ==> sent < buffer.len(),
        forall|i: int| 0 <= i < polls.len() ==> takes_word(#[trigger] polls[i]),
        polls.len() >= buffer.len() - words_moved(state, buffer.len()),
    ensures
        write_bytes_run(buffer, state, polls).0 is Finished,
    decreases polls.len(),
{
    if polls.len() == 0 {
    } else {
        let step = write_bytes_step(buffer, state, polls[0]);
        let later = polls.drop_first();
        assert(takes_word(polls[0]));
        assert forall|i: int| 0 <= i < later.len() implies takes_word(#[trigger] later[i]) by {
            assert(later[i] == polls[i + 1]);
        }
        lemma_write_bytes_completes(buffer, step.0, later);
    }
}

/// A transfer of `n` words from the line to `buffer`, polled once for each
/// reading in `polls`, data register first and flag register second, from
/// `state` on: the state that it ends in, and the buffer at its end.
pub open spec fn read_bytes_run(
    n: usize,
    buffer: Seq<u8>,
    state: Transfer,
    polls: Seq<(Received, Flags)>,
) -> (Transfer, Seq<u8>)
    decreases polls.len(),
{
    if polls.len() == 0 {
        (state, buffer)
    } else {
        let step = read_bytes_step(n, buffer, state, polls[0].0, polls[0].1);
        read_bytes_run(n, step.1, step.0, polls.drop_first())
    }
}

/// The words that arrive in `polls`, in their order, up to the first fault.
pub open spec fn arrivals(polls: Seq<(Received, Flags)>) -> Seq<u8>
    decreases polls.len(),
{
    if polls.len() == 0 {
        Seq::empty()
    } else {
        match read_outcome(polls[0].0, polls[0].1) {
            Ok(word) => seq![word] + arrivals(polls.drop_first()),
            Err(NotDone::WouldBlock) => arrivals(polls.drop_first()),
            Err(NotDone::Fault(_)) => Seq::empty(),
        }
    }
}

/// `buffer` with `words` in it from the place `at` on.
pub open spec fn stored(buffer: Seq<u8>, at: int, words: Seq<u8>) -> Seq<u8> {
    Seq::new(
        buffer.len(),
        |i: int|
            if at <= i < at + words.len() {
                words[i - at]
            } else {
                buffer[i]
            },
    )
}

/// A transfer from the line that is finished or has failed stays as it is,
/// and so does the buffer, whatever arrives.
pub proof fn lemma_read_bytes_settled(
    n: usize,
    buffer: Seq<u8>,
    state: Transfer,
    polls: Seq<(Received, Flags)>,
)
    requires
        !(state is Pending),
    ensures
        read_bytes_run(n, buffer, state, polls) == (state, buffer),
    decreases polls.len(),
{
    if polls.len() > 0 {
        lemma_read_bytes_settled(n, buffer, state, polls.drop_first());
    }
}

/// A transfer from the line, from any place that it has come to: the words
/// that arrive are stored in their order from that place on, each once, until
/// the transfer has its `n` words or meets a fault; the rest of the buffer
/// stays as it was. The transfer is finished exactly when enough words have
/// arrived before a fault.
pub proof fn lemma_read_bytes_run(
    n: usize,
    buffer: Seq<u8>,
    from: usize,
    polls: Seq<(Received, Flags)>,
)
    requires
        n <= buffer.len(),
        from < n,
    ensures
        ({
            let run = read_bytes_run(n, buffer, Transfer::Pending(from), polls);
            let words = arrivals(polls);
            let wanted = n - from;
            let taken = if words.len() < wanted {
                words.len() as int
            } else {
                wanted
            };
            &&& run.1 == stored(buffer, from as int, words.take(taken))
            &&& run.0 is Finished <==> words.len() >= wanted
            &&& run.0 matches Transfer::Pending(got) ==> got == from + words.len()
        }),
    decreases polls.len(),
{
    let state = Transfer::Pending(from);
    let words = arrivals(polls);
    let wanted = n - from;
    if polls.len() == 0 {
        assert(stored(buffer, from as int, words.take(0)) =~= buffer);
    } else {
        let later = polls.drop_first();
        let step = read_bytes_step(n, buffer, state, polls[0].0, polls[0].1);
        match read_outcome(polls[0].0, polls[0].1) {
            Ok(word) => {
                let rest = arrivals(later);
                assert(words == seq![word] + rest);
                if from + 1 >= n {
                    lemma_read_bytes_settled(n, step.1, step.0, later);
                    assert(words.take(1) =~= seq![word]);
                    assert(stored(buffer, from as int, seq![word]) =~= buffer.update(
                        from as int,
                        word,
                    ));
                } else {
                    lemma_read_bytes_run(n, step.1, (from + 1) as usize, later);
                    let left = wanted - 1;
                    let more = if rest.len() < left {
                        rest.len() as int
                    } else {
                        left
                    };
                    assert(words.take(more + 1) =~= seq![word] + rest.take(more));
                    assert(stored(step.1, from + 1, rest.take(more)) =~= stored(
                        buffer,
                        from as int,
                        seq![word] + rest.take(more),
                    ));
                }
            },
            Err(NotDone::WouldBlock) => {
                lemma_read_bytes_run(n, buffer, from, later);
            },
            Err(NotDone::Fault(_)) => {
                lemma_read_bytes_settled(n, step.1, step.0, later);
                assert(stored(buffer, from as int, words.take(0)) =~= buffer);
            },
        }
    }
}

/// A transfer from the line from its beginning: the first `n` words that
/// arrive before a fault fill the front of the buffer in their order, and
/// nothing else in the buffer changes.
pub proof fn lemma_read_bytes_in_order(n: usize, buffer: Seq<u8>, polls: Seq<(Received, Flags)>)
    requires
        n <= buffer.len(),
    ensures
        ({
            let run = read_bytes_run(n, buffer, transfer_at(0, n as nat), polls);
            let words = arrivals(polls);
            let taken = if words.len() < n {
                words.len() as int
            } else {
                n as int
            };
            &&& run.1 == stored(buffer, 0, words.take(taken))
            &&& run.0 is Finished <==> words.len() >= n
        }),
{
    if n == 0 {
        lemma_read_bytes_settled(n, buffer, Transfer::Finished, polls);
        assert(stored(buffer, 0, arrivals(polls).take(0)) =~= buffer);
    } else {
        lemma_read_bytes_run(n, buffer, 0, polls);
    }
}

} // verus!
