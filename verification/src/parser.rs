//! The terminal behind a VT parser: the parser turns the bytes of the game
//! into actions, and the terminal performs them.

use vstd::prelude::*;
use vstd::slice::slice_to_vec;
use crate::laws::{law_screen_persists, lemma_perform, lemma_run};
use crate::screen::{rows, Note, Screen};
use crate::term_data::TermData;

verus! {

/// What a VT parser dispatches for a byte of its input.
#[derive(Clone, Debug, PartialEq, Eq)]
pub enum Action {
    /// A printable character.
    Print(char),
    /// A C0 or C1 control byte.
    Execute(u8),
    /// The start of a device control string.
    Hook { params: Vec<i64>, intermediates: Vec<u8>, ignore: bool },
    /// A byte of a device control string.
    Put(u8),
    /// The end of a device control string.
    Unhook,
    /// An operating system command.
    OscDispatch(Vec<Vec<u8>>),
    /// A control sequence, with its final character.
    CsiDispatch { params: Vec<i64>, intermediates: Vec<u8>, ignore: bool, action: char },
    /// An escape sequence, with its final byte.
    EscDispatch { params: Vec<i64>, intermediates: Vec<u8>, ignore: bool, byte: u8 },
}

/// What an [`Action`] stands for.
#[verifier::ext_equal]
pub enum ActionView {
    Print(char),
    Execute(u8),
    Hook { params: Seq<i64>, intermediates: Seq<u8>, ignore: bool },
    Put(u8),
    Unhook,
    OscDispatch(Seq<Seq<u8>>),
    CsiDispatch { params: Seq<i64>, intermediates: Seq<u8>, ignore: bool, action: char },
    EscDispatch { params: Seq<i64>, intermediates: Seq<u8>, ignore: bool, byte: u8 },
}

impl View for Action {
    type V = ActionView;

    open spec fn view(&self) -> ActionView {
        match self {
            Action::Print(c) => ActionView::Print(*c),
            Action::Execute(byte) => ActionView::Execute(*byte),
            Action::Hook { params, intermediates, ignore } => ActionView::Hook {
                params: params@,
                intermediates: intermediates@,
                ignore: *ignore,
            },
            Action::Put(byte) => ActionView::Put(*byte),
            Action::Unhook => ActionView::Unhook,
            Action::OscDispatch(params) => ActionView::OscDispatch(rows(params@)),
            Action::CsiDispatch { params, intermediates, ignore, action } => ActionView::CsiDispatch {
                params: params@,
                intermediates: intermediates@,
                ignore: *ignore,
                action: *action,
            },
            Action::EscDispatch { params, intermediates, ignore, byte } => ActionView::EscDispatch {
                params: params@,
                intermediates: intermediates@,
                ignore: *ignore,
                byte: *byte,
            },
        }
    }
}

/// What the actions of `actions` stand for.
pub open spec fn views(actions: Seq<Action>) -> Seq<ActionView> {
    Seq::new(actions.len(), |i: int| actions[i]@)
}

impl Screen {
    /// The screen after one action.
    pub open spec fn perform(self, action: ActionView) -> Screen {
        match action {
            ActionView::Print(c) => self.print(c),
            ActionView::Execute(byte) => self.execute(byte),
            ActionView::CsiDispatch { params, intermediates, ignore, action } => self.csi_dispatch(
                params,
                intermediates,
                ignore,
                action,
            ),
            ActionView::EscDispatch { params, intermediates, ignore, byte } => self.esc_dispatch(
                params,
                intermediates,
                ignore,
                byte,
            ),
            ActionView::OscDispatch(_) => self.noted(Note::Osc),
            ActionView::Hook { .. } => self.noted(Note::Hook),
            ActionView::Put(byte) => self.noted(Note::Put(byte)),
            ActionView::Unhook => self.noted(Note::Unhook),
        }
    }

    /// The screen after the actions of `actions`, first to last.
    pub open spec fn run(self, actions: Seq<ActionView>) -> Screen
        decreases actions.len(),
    {
        if actions.len() == 0 {
            self
        } else {
            self.run(actions.drop_last()).perform(actions.last())
        }
    }

    /// The parser and the screen after the parser has taken `byte` and the
    /// terminal has performed what it dispatched.
    pub open spec fn advance(self, parser: vte::Parser, byte: u8) -> (vte::Parser, Screen) {
        let (parser, actions) = parsed(parser, byte);
        (parser, self.run(actions))
    }

    /// The parser and the screen after the bytes of `bytes`, first to last.
    pub open spec fn feed(self, parser: vte::Parser, bytes: Seq<u8>) -> (vte::Parser, Screen)
        decreases bytes.len(),
    {
        if bytes.len() == 0 {
            (parser, self)
        } else {
            let (parser, screen) = self.feed(parser, bytes.drop_last());
            screen.advance(parser, bytes.last())
        }
    }
}

/// Collects what a parser dispatches, in the order in which it does.
pub struct Recorder {
    pub actions: Vec<Action>,
}

impl Recorder {
    /// What has been collected.
    pub open spec fn recorded(self) -> Seq<ActionView> {
        views(self.actions@)
    }

    /// A recorder that has collected nothing.
    pub fn new() -> (recorder: Recorder)
        ensures
            recorder.recorded() == Seq::<ActionView>::empty(),
    {
        Recorder { actions: Vec::new() }
    }

    fn record(&mut self, action: Action)
        ensures
            final(self).recorded() == old(self).recorded().push(action@),
    {
        self.actions.push(action);
    }
}

/// A copy of the parameters of an operating system command.
fn copy_params(params: &[&[u8]]) -> (copy: Vec<Vec<u8>>)
    ensures
        rows(copy@) == slices(params@),
{
    let mut copy: Vec<Vec<u8>> = Vec::new();
    let mut i: usize = 0;
    while i < params.len()
        invariant
            i <= params@.len(),
            copy@.len() == i,
            forall|k: int| 0 <= k < i ==> (#[trigger] copy@[k])@ == params@[k]@,
        decreases params@.len() - i,
    {
        copy.push(slice_to_vec(params[i]));
        i += 1;
    }
    copy
}

/// The content of the slices of `params`.
pub open spec fn slices(params: Seq<&[u8]>) -> Seq<Seq<u8>> {
    Seq::new(params.len(), |i: int| params[i]@)
}

/// Each call of the parser is recorded as the action it stands for.
impl vte::Perform for Recorder {
    fn print(&mut self, c: char)
        ensures
            final(self).recorded() == old(self).recorded().push(ActionView::Print(c)),
    {
        self.record(Action::Print(c));
    }

    fn execute(&mut self, byte: u8)
        ensures
            final(self).recorded() == old(self).recorded().push(ActionView::Execute(byte)),
    {
        self.record(Action::Execute(byte));
    }

    fn hook(&mut self, params: &[i64], intermediates: &[u8], ignore: bool)
        ensures
            final(self).recorded() == old(self).recorded().push(
                ActionView::Hook { params: params@, intermediates: intermediates@, ignore },
            ),
    {
        self.record(
            Action::Hook {
                params: slice_to_vec(params),
                intermediates: slice_to_vec(intermediates),
                ignore,
            },
        );
    }

    fn put(&mut self, byte: u8)
        ensures
            final(self).recorded() == old(self).recorded().push(ActionView::Put(byte)),
    {
        self.record(Action::Put(byte));
    }

    fn unhook(&mut self)
        ensures
            final(self).recorded() == old(self).recorded().push(ActionView::Unhook),
    {
        self.record(Action::Unhook);
    }

    fn osc_dispatch(&mut self, params: &[&[u8]])
        ensures
            final(self).recorded() == old(self).recorded().push(
                ActionView::OscDispatch(slices(params@)),
            ),
    {
        self.record(Action::OscDispatch(copy_params(params)));
    }

    fn csi_dispatch(&mut self, params: &[i64], intermediates: &[u8], ignore: bool, action: char)
        ensures
            final(self).recorded() == old(self).recorded().push(
                ActionView::CsiDispatch {
                    params: params@,
                    intermediates: intermediates@,
                    ignore,
                    action,
                },
            ),
    {
        self.record(
            Action::CsiDispatch {
                params: slice_to_vec(params),
                intermediates: slice_to_vec(intermediates),
                ignore,
                action,
            },
        );
    }

    fn esc_dispatch(&mut self, params: &[i64], intermediates: &[u8], ignore: bool, byte: u8)
        ensures
            final(self).recorded() == old(self).recorded().push(
                ActionView::EscDispatch {
                    params: params@,
                    intermediates: intermediates@,
                    ignore,
                    byte,
                },
            ),
    {
        self.record(
            Action::EscDispatch {
                params: slice_to_vec(params),
                intermediates: slice_to_vec(intermediates),
                ignore,
                byte,
            },
        );
    }
}

/// The VT parser of the crate `vte`: a state machine over the bytes it has
/// taken. What is inside is not stated here.
#[verifier::external_type_specification]
#[verifier::external_body]
pub struct ExParser(vte::Parser);

/// `vte::Parser::new` makes a parser in its ground state. Nothing is claimed
/// of it.
pub assume_specification[ vte::Parser::new ]() -> (parser: vte::Parser)
;

/// The parser that `parser` becomes when it takes `byte`, and what it
/// dispatches on the way, in order.
pub uninterp spec fn parsed(parser: vte::Parser, byte: u8) -> (vte::Parser, Seq<ActionView>);

/// `vte::Parser::advance` moves the parser's state machine by one byte and
/// calls the performer for each action that the byte completes; here the
/// performer is a [`Recorder`], which collects the calls. The contract
/// claims that the parser's new state and the calls it makes depend on its
/// state and the byte alone, and gives them their name; it says nothing of
/// which calls those are.
#[verifier::external_body]
fn advance_parser(parser: &mut vte::Parser, byte: u8) -> (actions: Vec<Action>)
    ensures
        (*final(parser), views(actions@)) == parsed(*old(parser), byte),
{
    let mut recorder = Recorder { actions: Vec::new() };
    parser.advance(&mut recorder, byte);
    recorder.actions
}

impl TermData {
    /// Performs one action of a parser.
    pub fn perform(&mut self, action: &Action)
        requires
            old(self).wf(),
        ensures
            final(self).wf(),
            final(self)@ == old(self)@.perform(action@),
            old(self)@.persists_as(final(self)@),
    {
        proof {
            lemma_perform(self@, action@);
        }
        match action {
            Action::Print(c) => self.print(*c),
            Action::Execute(byte) => self.execute(*byte),
            Action::Hook { params, intermediates, ignore } => self.hook(
                params.as_slice(),
                intermediates.as_slice(),
                *ignore,
            ),
            Action::Put(byte) => self.put(*byte),
            Action::Unhook => self.unhook(),
            Action::OscDispatch(params) => self.osc_dispatch(params.as_slice()),
            Action::CsiDispatch { params, intermediates, ignore, action } => self.csi_dispatch(
                params.as_slice(),
                intermediates.as_slice(),
                *ignore,
                *action,
            ),
            Action::EscDispatch { params, intermediates, ignore, byte } => self.esc_dispatch(
                params.as_slice(),
                intermediates.as_slice(),
                *ignore,
                *byte,
            ),
        }
    }

    /// Performs the actions of `actions`, first to last.
    pub fn run(&mut self, actions: &[Action])
        requires
            old(self).wf(),
        ensures
            final(self).wf(),
            final(self)@ == old(self)@.run(views(actions@)),
            old(self)@.persists_as(final(self)@),
    {
        proof {
            lemma_run(self@, views(actions@));
        }
        let mut i: usize = 0;
        while i < actions.len()
            invariant
                self.wf(),
                i <= actions@.len(),
                self@ == old(self)@.run(views(actions@).take(i as int)),
            decreases actions@.len() - i,
        {
            self.perform(&actions[i]);
            proof {
                assert(views(actions@).take(i + 1).drop_last() == views(actions@).take(i as int));
            }
            i += 1;
        }
        proof {
            assert(views(actions@).take(actions@.len() as int) == views(actions@));
        }
    }

    /// Hands `byte` to the parser and performs what it dispatches.
    pub fn advance(&mut self, parser: &mut vte::Parser, byte: u8)
        requires
            old(self).wf(),
        ensures
            final(self).wf(),
            (*final(parser), final(self)@) == old(self)@.advance(*old(parser), byte),
            old(self)@.persists_as(final(self)@),
    {
        let actions = advance_parser(parser, byte);
        self.run(actions.as_slice());
    }

    /// Hands the bytes of `bytes` to the parser, first to last, and performs
    /// what it dispatches.
    pub fn feed(&mut self, parser: &mut vte::Parser, bytes: &[u8])
        requires
            old(self).wf(),
        ensures
            final(self).wf(),
            (*final(parser), final(self)@) == old(self)@.feed(*old(parser), bytes@),
            old(self)@.persists_as(final(self)@),
    {
        proof {
            law_screen_persists(self@, *parser, bytes@);
        }
        let mut i: usize = 0;
        while i < bytes.len()
            invariant
                self.wf(),
                i <= bytes@.len(),
                (*parser, self@) == old(self)@.feed(*old(parser), bytes@.take(i as int)),
            decreases bytes@.len() - i,
        {
            self.advance(parser, bytes[i]);
            proof {
                assert(bytes@.take(i + 1).drop_last() == bytes@.take(i as int));
            }
            i += 1;
        }
        proof {
            assert(bytes@.take(bytes@.len() as int) == bytes@);
        }
    }
}

} // verus!
