//! The engine that inflates zlib streams.

use vstd::prelude::*;
use vstd::slice::*;
use miniz_oxide::inflate::stream::InflateState;
use miniz_oxide::{DataFormat, MZError, MZFlush, MZStatus};
use crate::error::InflateError;

verus! {

/// The state of a zlib decoder between two calls.
#[verifier::external_type_specification]
#[verifier::external_body]
pub struct ExInflateState(InflateState);

/// What the decoder says at the end of a call.
#[derive(Clone, Copy, Debug, PartialEq, Eq, Structural)]
pub enum Signal {
    /// It went on and expects to go on.
    Running,
    /// It has reached the end of the stream.
    StreamEnd,
    /// It asks for a preset dictionary.
    NeedDict,
    /// It could do nothing for want of input or of room.
    Buf,
    /// It found the stream malformed.
    Data,
    /// It was called in a way that its state does not allow.
    Stream,
    /// It was given a parameter that it does not take.
    Param,
    /// It failed otherwise.
    Unknown,
}

/// What one call of the decoder has done.
#[derive(Clone, Copy, Debug, PartialEq, Eq, Structural)]
pub struct Step {
    /// How many bytes it took from the front of the input.
    pub consumed: usize,
    /// How many bytes it wrote to the front of the output.
    pub written: usize,
    /// What it said.
    pub signal: Signal,
}

/// How a call of the engine ended when it did not fail.
#[derive(Clone, Copy, Debug, PartialEq, Eq, Structural)]
pub enum Status {
    /// The stream goes on.
    Running,
    /// Nothing could be done for want of input or of room.
    BufError,
    /// The stream has ended.
    StreamEnd,
}

/// The calls that a decoder has answered since it was made, oldest first: for
/// each one its input and the number of bytes that its output had room for.
pub uninterp spec fn answered(state: InflateState) -> Seq<(Seq<u8>, nat)>;

/// What a decoder for the zlib format that has answered the calls `before` does
/// with `input` and an output of `room` bytes: the step that it reports, and the
/// bytes that it writes.
pub uninterp spec fn inflated(before: Seq<(Seq<u8>, nat)>, input: Seq<u8>, room: nat) -> (
    Step,
    Seq<u8>,
);

/// `InflateState::new_boxed`: a decoder at the start of a stream in zlib format,
/// which has answered no call yet.
#[verifier::external_body]
fn new_state() -> (state: Box<InflateState>)
    ensures
        answered(*state) == Seq::<(Seq<u8>, nat)>::empty(),
{
    InflateState::new_boxed(DataFormat::Zlib)
}

/// `miniz_oxide::inflate::stream::inflate` without flushing. What the decoder
/// does is set by the calls that it has answered, its input and the room of
/// its output, and it has then answered one call more. It takes bytes from the
/// front of `input` and writes bytes to the front of `output`, no more than
/// either has, and leaves the rest of `output` as it was.
#[verifier::external_body]
fn inflate(state: &mut InflateState, input: &[u8], output: &mut [u8]) -> (step: Step)
    ensures
        step == inflated(answered(*old(state)), input@, old(output)@.len()).0,
        final(output)@ == inflated(answered(*old(state)), input@, old(output)@.len()).1 + old(
            output,
        )@.skip(step.written as int),
        answered(*final(state)) == answered(*old(state)).push((input@, old(output)@.len())),
        step.consumed <= input@.len(),
        step.written <= old(output)@.len(),
        step.written == inflated(answered(*old(state)), input@, old(output)@.len()).1.len(),
{
    let done = miniz_oxide::inflate::stream::inflate(state, input, output, MZFlush::None);
    let signal = match done.status {
        Ok(MZStatus::Ok) => Signal::Running,
        Ok(MZStatus::StreamEnd) => Signal::StreamEnd,
        Ok(MZStatus::NeedDict) => Signal::NeedDict,
        Err(MZError::Buf) => Signal::Buf,
        Err(MZError::Data) => Signal::Data,
        Err(MZError::Stream) => Signal::Stream,
        Err(MZError::Param) => Signal::Param,
        Err(_) => Signal::Unknown,
    };
    Step { consumed: done.bytes_consumed, written: done.bytes_written, signal }
}

/// What a signal of the decoder means to the engine: want of input or room is a
/// state of affairs, anything else that is not progress is a failure.
pub open spec fn report_of(signal: Signal) -> Result<Status, InflateError> {
    match signal {
        Signal::Running => Ok(Status::Running),
        Signal::StreamEnd => Ok(Status::StreamEnd),
        Signal::Buf => Ok(Status::BufError),
        Signal::NeedDict => Err(InflateError::NeedDict),
        Signal::Data => Err(InflateError::Data),
        Signal::Stream => Err(InflateError::Stream),
        Signal::Param => Err(InflateError::Param),
        Signal::Unknown => Err(InflateError::Unknown),
    }
}

/// What the engine does after a step of a run to the end of the stream.
#[derive(Clone, Copy, Debug, PartialEq, Eq, Structural)]
pub enum Move {
    /// Call the decoder again.
    Again,
    /// Stop: the stream has ended.
    Ended,
    /// Stop: the output is full and the stream has not ended.
    Full,
    /// Stop: the run has failed.
    Fail(InflateError),
}

/// The move after `step` when `room` bytes of the output are still unwritten
/// after it. The run goes on as long as the decoder takes or gives bytes. When
/// it does neither, a full output ends the run, and an output with room left
/// means that the stream is cut short.
pub open spec fn move_after(step: Step, room: nat) -> Move {
    match report_of(step.signal) {
        Err(why) => Move::Fail(why),
        Ok(Status::StreamEnd) => Move::Ended,
        Ok(Status::Running) => if step.consumed > 0 || step.written > 0 {
            Move::Again
        } else if room == 0 {
            Move::Full
        } else {
            Move::Fail(InflateError::Incomplete)
        },
        Ok(Status::BufError) => if room == 0 {
            Move::Full
        } else {
            Move::Fail(InflateError::Incomplete)
        },
    }
}

/// What a single call of the engine returns for the step that the decoder made:
/// the status with the numbers of bytes taken and written, or the failure.
pub open spec fn once_result(step: Step) -> Result<(Status, usize, usize), InflateError> {
    match report_of(step.signal) {
        Ok(status) => Ok((status, step.consumed, step.written)),
        Err(why) => Err(why),
    }
}

/// What a run to the end of a stream comes to.
pub struct Run {
    /// The failure, if the run failed.
    pub failure: Option<InflateError>,
    /// The bytes that were written, in all.
    pub written: Seq<u8>,
    /// Whether the decoder has seen the end of the stream.
    pub ended: bool,
    /// The calls that the decoder has answered after the run.
    pub answered: Seq<(Seq<u8>, nat)>,
}

impl Run {
    /// What the run returns: the number of bytes written, or the failure.
    pub open spec fn result(self) -> Result<usize, InflateError> {
        match self.failure {
            Some(why) => Err(why),
            None => Ok(self.written.len() as usize),
        }
    }

    /// This run after a step that wrote `bytes`.
    pub open spec fn after(self, bytes: Seq<u8>) -> Run {
        Run { written: bytes + self.written, ..self }
    }
}

/// The run of a decoder that has answered the calls `before`, on what is left of
/// the stream and an output of `room` bytes: call after call, each on the input
/// that the calls before it have left and on the room that they have left, until
/// [`move_after`] says to stop.
pub open spec fn run_of(before: Seq<(Seq<u8>, nat)>, input: Seq<u8>, room: nat) -> Run
    decreases input.len() + room,
{
    let (step, bytes) = inflated(before, input, room);
    let answered = before.push((input, room));
    match move_after(step, (room - step.written) as nat) {
        Move::Again => if step.consumed <= input.len() && step.written <= room {
            run_of(answered, input.skip(step.consumed as int), (room - step.written) as nat).after(
                bytes,
            )
        } else {
            Run { failure: Some(InflateError::Unknown), written: bytes, ended: false, answered }
        },
        Move::Ended => Run { failure: None, written: bytes, ended: true, answered },
        Move::Full => Run { failure: None, written: bytes, ended: false, answered },
        Move::Fail(why) => Run { failure: Some(why), written: bytes, ended: false, answered },
    }
}

/// The engine: a decoder and whether it has seen the end of its stream.
pub struct Inflate {
    state: Box<InflateState>,
    is_done: bool,
}

impl Inflate {
    /// Whether the engine has reached the end of its stream.
    pub closed spec fn done(&self) -> bool {
        self.is_done
    }

    /// The calls that the decoder of the engine has answered.
    pub closed spec fn answered(&self) -> Seq<(Seq<u8>, nat)> {
        answered(*self.state)
    }

    /// An engine at the start of a stream.
    pub fn new() -> (engine: Inflate)
        ensures
            !engine.done(),
            engine.answered() == Seq::<(Seq<u8>, nat)>::empty(),
    {
        Inflate { state: new_state(), is_done: false }
    }

    /// Whether the engine has reached the end of its stream.
    pub fn is_done(&self) -> (r: bool)
        ensures
            r == self.done(),
    {
        self.is_done
    }

    /// Sorts a signal of the decoder into a status or a failure.
    pub fn report(signal: Signal) -> (r: Result<Status, InflateError>)
        ensures
            r == report_of(signal),
    {
        match signal {
            Signal::Running => Ok(Status::Running),
            Signal::StreamEnd => Ok(Status::StreamEnd),
            Signal::Buf => Ok(Status::BufError),
            Signal::NeedDict => Err(InflateError::NeedDict),
            Signal::Data => Err(InflateError::Data),
            Signal::Stream => Err(InflateError::Stream),
            Signal::Param => Err(InflateError::Param),
            Signal::Unknown => Err(InflateError::Unknown),
        }
    }

    /// Decides how a run to the end of the stream goes on after `step`, with
    /// `room` bytes of output still unwritten.
    pub fn next_move(step: Step, room: usize) -> (r: Move)
        ensures
            r == move_after(step, room as nat),
    {
        match Self::report(step.signal) {
            Err(why) => Move::Fail(why),
            Ok(Status::StreamEnd) => Move::Ended,
            Ok(Status::Running) => {
                if step.consumed > 0 || step.written > 0 {
                    Move::Again
                } else if room == 0 {
                    Move::Full
                } else {
                    Move::Fail(InflateError::Incomplete)
                }
            },
            Ok(Status::BufError) => {
                if room == 0 {
                    Move::Full
                } else {
                    Move::Fail(InflateError::Incomplete)
                }
            },
        }
    }

    /// Calls the decoder once on `input` and `out`: it inflates as much as there is
    /// input for and as fits. Returns the status, the number of bytes taken from
    /// `input` and the number of bytes written to the front of `out`. A stream that
    /// is not at its end is no failure.
    pub fn once(&mut self, input: &[u8], out: &mut [u8]) -> (r: Result<
        (Status, usize, usize),
        InflateError,
    >)
        ensures
            ({
                let (step, bytes) = inflated(old(self).answered(), input@, old(out)@.len());
                &&& r == once_result(step)
                &&& final(out)@ == bytes + old(out)@.skip(step.written as int)
                &&& bytes.len() == step.written
                &&& final(self).done() == (old(self).done() || step.signal == Signal::StreamEnd)
                &&& final(self).answered() == old(self).answered().push(
                    (input@, old(out)@.len()),
                )
            }),
            final(out)@.len() == old(out)@.len(),
            r matches Ok((_, consumed, written)) ==> consumed <= input@.len() && written <= old(
                out,
            )@.len(),
    {
        let step = inflate(&mut *self.state, input, out);
        match Self::report(step.signal) {
            Err(why) => Err(why),
            Ok(status) => {
                if let Status::StreamEnd = status {
                    self.is_done = true;
                }
                Ok((status, step.consumed, step.written))
            },
        }
    }

    /// Runs the decoder on `input`, which is all that is left of the stream, until
    /// the stream ends or nothing more can be done, and writes to `out` from its
    /// front. Returns the number of bytes written.
    ///
    /// The engine is done afterwards only if the decoder has seen the end of the
    /// stream; an output that is full does not make it so. Input that is used up
    /// while the output has room and the stream has not ended is a failure.
    pub fn all_till_done(&mut self, input: &[u8], out: &mut [u8]) -> (r: Result<
        usize,
        InflateError,
    >)
        ensures
            ({
                let run = run_of(old(self).answered(), input@, old(out)@.len());
                &&& r == run.result()
                &&& final(out)@ == run.written + old(out)@.skip(run.written.len() as int)
                &&& run.written.len() <= old(out)@.len()
                &&& final(self).done() == (old(self).done() || run.ended)
                &&& final(self).answered() == run.answered
                &&& run.failure is None && !run.ended ==> run.written.len() == old(out)@.len()
                &&& run.ended ==> run.failure is None
            }),
            final(out)@.len() == old(out)@.len(),
    {
        let mut taken: usize = 0;
        let mut written: usize = 0;
        let ghost mut so_far: Seq<u8> = Seq::empty();
        assert(input@.skip(0) =~= input@);
        assert(out@ =~= so_far + out@.skip(0));
        assert(run_of(self.answered(), input@, out@.len()).after(so_far) =~= run_of(
            self.answered(),
            input@,
            out@.len(),
        )) by {
            let run = run_of(self.answered(), input@, out@.len());
            assert(so_far + run.written =~= run.written);
        }
        loop
            invariant
                taken <= input@.len(),
                written <= out@.len(),
                so_far.len() == written,
                out@.len() == old(out)@.len(),
                out@ == so_far + old(out)@.skip(written as int),
                self.done() == old(self).done(),
                run_of(old(self).answered(), input@, old(out)@.len()) == run_of(
                    self.answered(),
                    input@.skip(taken as int),
                    (out@.len() - written) as nat,
                ).after(so_far),
            decreases (input@.len() - taken) + (out@.len() - written),
        {
            let rest = slice_subrange(input, taken, input.len());
            let length = out.len();
            let ghost before = out@;
            let ghost calls = self.answered();
            let (head, room) = out.split_at_mut(written);
            let step = inflate(&mut *self.state, rest, room);
            proof {
                let left = (length - written) as nat;
                let (made, bytes) = inflated(calls, rest@, left);
                assert(rest@ =~= input@.skip(taken as int));
                assert(made == step);
                assert(out@ =~= so_far + bytes + old(out)@.skip(written + step.written)) by {
                    assert(head@ =~= so_far);
                    assert(before.skip(written as int).skip(step.written as int) =~= old(
                        out,
                    )@.skip(written + step.written));
                }
                let next = run_of(
                    self.answered(),
                    rest@.skip(step.consumed as int),
                    (left - step.written) as nat,
                );
                assert(rest@.skip(step.consumed as int) =~= input@.skip(taken + step.consumed));
                assert(next.after(bytes).after(so_far) =~= next.after(so_far + bytes)) by {
                    assert(so_far + (bytes + next.written) =~= (so_far + bytes) + next.written);
                }
                so_far = so_far + bytes;
            }
            taken += step.consumed;
            written += step.written;
            match Self::next_move(step, length - written) {
                Move::Again => {},
                Move::Ended => {
                    self.is_done = true;
                    return Ok(written);
                },
                Move::Full => {
                    return Ok(written);
                },
                Move::Fail(why) => {
                    return Err(why);
                },
            }
        }
    }
}

} // verus!
