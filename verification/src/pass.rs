//! A pass: the commands of one pipeline operation, and how far the host
//! has got with them.
//!
//! The host issues the commands one by one and reports after each whether
//! the GPU took it. The first failure ends the pass; nothing is retried.

use vstd::prelude::*;
use crate::command::Command;
use crate::program;
use crate::renderer::Error;

verus! {

/// The commands of one operation that are still to be issued.
#[derive(Debug)]
pub struct Pass {
    commands: Vec<Command>,
    next: usize,
}

/// What the host does next.
#[derive(Debug)]
pub enum Step {
    /// Issue this command, and report how it went.
    Issue(Command),
    /// The pass is over, with this result.
    Done(Result<(), Error>),
}

impl View for Pass {
    type V = Seq<Command>;

    /// The commands that are still to be issued, in order.
    closed spec fn view(&self) -> Seq<Command> {
        if self.next <= self.commands@.len() {
            self.commands@.skip(self.next as int)
        } else {
            Seq::empty()
        }
    }
}

/// The place of the first failure among `reports`, if there is one.
pub open spec fn first_failure(reports: Seq<Result<(), program::Error>>) -> Option<int>
    decreases reports.len(),
{
    if reports.len() == 0 {
        None
    } else if reports[0] is Err {
        Some(0)
    } else {
        match first_failure(reports.skip(1)) {
            Some(k) => Some(k + 1),
            None => None,
        }
    }
}

/// What a host issues that goes by `advance`, and how the pass ends for
/// it, when `last` is the report in hand and the GPU answers the command
/// in place `i` of `pending` with `reports[i]`.
pub open spec fn run(
    pending: Seq<Command>,
    last: Result<(), program::Error>,
    reports: Seq<Result<(), program::Error>>,
) -> (Seq<Command>, Result<(), Error>)
    recommends
        reports.len() == pending.len(),
    decreases pending.len(),
{
    match last {
        Err(e) => (Seq::empty(), Err(Error::Program(e))),
        Ok(_) => if pending.len() > 0 {
            let rest = run(pending.skip(1), reports[0], reports.skip(1));
            (seq![pending[0]] + rest.0, rest.1)
        } else {
            (Seq::empty(), Ok(()))
        },
    }
}

/// Each turn of `run` is one call of `advance`: the pass ends where
/// `advance` says that it is done, and goes on with the command that
/// `advance` hands out and with what it leaves pending.
pub proof fn lemma_run_goes_by_advance(
    pending: Seq<Command>,
    last: Result<(), program::Error>,
    reports: Seq<Result<(), program::Error>>,
)
    ensures
        match Pass::step_after(pending, last) {
            Step::Done(result) => run(pending, last, reports) == (Seq::<Command>::empty(), result),
            Step::Issue(command) => run(pending, last, reports) == (
                seq![command] + run(
                    Pass::pending_after(pending, last),
                    reports[0],
                    reports.skip(1),
                ).0,
                run(Pass::pending_after(pending, last), reports[0], reports.skip(1)).1,
            ),
        },
{
}

/// A pass in which nothing fails issues all of its commands, in order,
/// and ends well. A pass in which the command in place `k` is the first to
/// fail issues the commands up to and with that one, issues none after
/// it, and ends with that failure as a program error.
pub proof fn lemma_run_stops_at_first_failure(
    pending: Seq<Command>,
    last: Result<(), program::Error>,
    reports: Seq<Result<(), program::Error>>,
)
    requires
        last is Ok,
        reports.len() == pending.len(),
    ensures
        match first_failure(reports) {
            None => run(pending, last, reports) == (pending, Ok::<(), Error>(())),
            Some(k) => {
                &&& 0 <= k < pending.len()
                &&& reports[k] is Err
                &&& forall|i: int| 0 <= i < k ==> reports[i] is Ok
                &&& run(pending, last, reports) == (
                    pending.take(k + 1),
                    Err::<(), Error>(Error::Program(reports[k]->Err_0)),
                )
            },
        },
    decreases pending.len(),
{
    let whole = run(pending, last, reports);
    if pending.len() == 0 {
        assert(whole.0 =~= pending);
    } else {
        let rest = run(pending.skip(1), reports[0], reports.skip(1));
        assert(whole.0 == seq![pending[0]] + rest.0);
        assert(whole.1 == rest.1);
        match reports[0] {
            Err(e) => {
                assert(rest.0 =~= Seq::<Command>::empty());
                assert(whole.0 =~= pending.take(1));
            },
            Ok(_) => {
                lemma_run_stops_at_first_failure(pending.skip(1), reports[0], reports.skip(1));
                match first_failure(reports.skip(1)) {
                    None => {
                        assert(whole.0 =~= pending);
                    },
                    Some(k) => {
                        assert(reports.skip(1)[k] == reports[k + 1]);
                        assert(whole.0 =~= pending.take(k + 2));
                        assert forall|i: int| 0 <= i < k + 1 implies reports[i] is Ok by {
                            if i > 0 {
                                assert(reports.skip(1)[i - 1] == reports[i]);
                            }
                        }
                    },
                }
            },
        }
    }
}

impl Pass {
    /// The step that follows `pending` when the last command went as `last` says.
    pub open spec fn step_after(pending: Seq<Command>, last: Result<(), program::Error>) -> Step {
        match last {
            Err(e) => Step::Done(Err(Error::Program(e))),
            Ok(_) => if pending.len() > 0 {
                Step::Issue(pending[0])
            } else {
                Step::Done(Ok(()))
            },
        }
    }

    /// What is still to be issued after that step.
    pub open spec fn pending_after(pending: Seq<Command>, last: Result<(), program::Error>) -> Seq<
        Command,
    > {
        match last {
            Err(_) => Seq::empty(),
            Ok(_) => if pending.len() > 0 {
                pending.skip(1)
            } else {
                Seq::empty()
            },
        }
    }

    /// A pass that has all of `commands` still to issue.
    pub fn new(commands: Vec<Command>) -> (pass: Pass)
        ensures
            pass@ == commands@,
    {
        let pass = Pass { commands, next: 0 };
        proof {
            assert(pass@ =~= commands@);
        }
        pass
    }

    /// The commands that are still to be issued, in order.
    pub fn pending(&self) -> (commands: Vec<Command>)
        ensures
            commands@ == self@,
    {
        let mut commands: Vec<Command> = Vec::new();
        let len: usize = self.commands.len();
        if self.next > len {
            return commands;
        }
        let mut i: usize = self.next;
        while i < len
            invariant
                self.next <= i <= len,
                len == self.commands@.len(),
                commands@ == self.commands@.subrange(self.next as int, i as int),
            decreases len - i,
        {
            commands.push(self.commands[i]);
            proof {
                assert(commands@ =~= self.commands@.subrange(self.next as int, i + 1));
            }
            i += 1;
        }
        proof {
            assert(commands@ =~= self@);
        }
        commands
    }

    /// Takes the report on the last command and says what to do next.
    ///
    /// For the first step of a pass, nothing has failed yet: pass `Ok(())`.
    /// A failure ends the pass with that failure, wrapped as a program
    /// error, and leaves nothing to issue. Otherwise the next command is
    /// handed out, or the pass ends well if none is left.
    pub fn advance(&mut self, last: Result<(), program::Error>) -> (step: Step)
        ensures
            step == Pass::step_after(old(self)@, last),
            final(self)@ == Pass::pending_after(old(self)@, last),
    {
        let len: usize = self.commands.len();
        match last {
            Err(e) => {
                self.next = len;
                proof {
                    assert(self@ =~= Seq::<Command>::empty());
                }
                Step::Done(Err(Error::Program(e)))
            },
            Ok(_) => {
                if self.next < len {
                    let command = self.commands[self.next];
                    self.next = self.next + 1;
                    proof {
                        assert(self@ =~= old(self)@.skip(1));
                    }
                    Step::Issue(command)
                } else {
                    proof {
                        assert(old(self)@ =~= Seq::<Command>::empty());
                    }
                    Step::Done(Ok(()))
                }
            },
        }
    }
}

} // verus!
