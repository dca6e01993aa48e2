//! The escape-sequence decoder, as far as the output pipeline looks at it.
//!
//! Decoding is the work of `termwiz`. The pipeline hands it bytes, takes the
//! decoded actions as they are, asks of each only whether it opens or
//! closes a synchronized-output frame, and has `termwiz` append it to the
//! batch. The items marked `external_body`
//! and those without a body are not proved: they state what `termwiz` is
//! taken to do.

use vstd::prelude::*;
use termwiz::escape::csi::{DecPrivateMode, DecPrivateModeCode, Device, Mode};
use termwiz::escape::parser::Parser;
use termwiz::escape::{Action, CSI};

verus! {

/// `termwiz::escape::Action`: one decoded unit of terminal output. It is
/// carried through unread.
#[verifier::external_type_specification]
#[verifier::external_body]
pub struct ExAction(Action);

/// `termwiz::escape::parser::Parser`: the streaming decoder. It keeps an
/// unfinished sequence from one chunk to the next.
#[verifier::external_type_specification]
#[verifier::external_body]
pub struct ExParser(Parser);

/// What a decoded action means to the batching protocol.
#[derive(Clone, Copy, Debug, PartialEq, Eq, Structural)]
pub enum Signal {
    /// Synchronized output begins: hold deliveries back.
    HoldBegin,
    /// Synchronized output ends: release what was held.
    HoldEnd,
    /// Soft device reset: release what was held.
    SoftReset,
    /// Anything else.
    Plain,
}

/// The signal that an action carries: what [`classify`] returns for it.
pub uninterp spec fn signal_of(action: Action) -> Signal;

/// The actions that a decoder in the state `parser` returns for `bytes`:
/// what [`decode`] returns.
pub uninterp spec fn decoded(parser: Parser, bytes: Seq<u8>) -> Seq<Action>;

/// Tells the variants of `Action` apart. The CSI sequence that sets the DEC
/// private mode for synchronized output (2026) is `HoldBegin`, the one that
/// resets it is `HoldEnd`, the CSI soft reset of the device is `SoftReset`,
/// and every other action is `Plain`. The answer depends on the action
/// alone.
#[verifier::external_body]
fn classify(action: &Action) -> (signal: Signal)
    ensures
        signal == signal_of(*action),
{
    match action {
        Action::CSI(CSI::Mode(Mode::SetDecPrivateMode(DecPrivateMode::Code(
            DecPrivateModeCode::SynchronizedOutput,
        )))) => Signal::HoldBegin,
        Action::CSI(CSI::Mode(Mode::ResetDecPrivateMode(DecPrivateMode::Code(
            DecPrivateModeCode::SynchronizedOutput,
        )))) => Signal::HoldEnd,
        Action::CSI(CSI::Device(dev)) if matches!(**dev, Device::SoftReset) => Signal::SoftReset,
        _ => Signal::Plain,
    }
}

/// A decoded action together with the signal that it carries.
pub struct Decoded {
    pub signal: Signal,
    pub action: Action,
}

/// The actions of `items`, without their signals.
pub open spec fn actions_of(items: Seq<Decoded>) -> Seq<Action> {
    items.map_values(|item: Decoded| item.action)
}

/// `actions`, each together with the signal that it carries.
pub open spec fn tagged(actions: Seq<Action>) -> Seq<Decoded> {
    actions.map_values(|action: Action| Decoded { signal: signal_of(action), action })
}

impl Decoded {
    /// `action` together with the signal that it carries.
    pub fn of(action: Action) -> (item: Decoded)
        ensures
            item.action == action,
            item.signal == signal_of(action),
    {
        let signal = classify(&action);
        Decoded { signal, action }
    }

    /// Each of `actions` together with the signal that it carries.
    pub fn of_all(actions: Vec<Action>) -> (items: Vec<Decoded>)
        ensures
            items@ == tagged(actions@),
    {
        let ghost all = actions@;
        let mut items: Vec<Decoded> = Vec::new();
        for action in iter: actions
            invariant
                iter.seq() == all,
                items@ == tagged(all.take(iter.index() as int)),
        {
            proof {
                let i = iter.index() as int;
                assert(tagged(all.take(i + 1)) =~= tagged(all.take(i)).push(
                    Decoded { signal: signal_of(all[i]), action: all[i] },
                ));
            }
            items.push(Decoded::of(action));
        }
        assert(all.take(all.len() as int) =~= all);
        items
    }
}

/// What `Action::append_to` puts in the place of `last`, the last element of
/// a list, when it merges `action` into it; `None` where it pushes `action`
/// behind `last` instead.
pub uninterp spec fn merged(last: Action, action: Action) -> Option<Action>;

/// The list that `Action::append_to` makes of `list` and `action`: `action`
/// is merged into the last element, which leaves all before it as they
/// are, or it is pushed.
pub open spec fn appended(list: Seq<Action>, action: Action) -> Seq<Action> {
    if list.len() > 0 && merged(list.last(), action) is Some {
        list.drop_last().push(merged(list.last(), action).unwrap())
    } else {
        list.push(action)
    }
}

/// The list that appending each of `actions` to `list`, in order, makes of
/// it.
pub open spec fn joined(list: Seq<Action>, actions: Seq<Action>) -> Seq<Action>
    decreases actions.len(),
{
    if actions.len() == 0 {
        list
    } else {
        appended(joined(list, actions.drop_last()), actions.last())
    }
}

/// `Action::append_to`: appends `action` to `dest`. A printed character
/// that follows printed text is merged into it, so that the last element
/// is replaced and the length stays; anything else is pushed. Whether it
/// merges, and into what, depends on the last element and the action
/// alone.
#[verifier::external_body]
pub(crate) fn append_action(dest: &mut Vec<Action>, action: Action)
    ensures
        final(dest)@ == appended(old(dest)@, action),
        old(dest)@.len() > 0 && merged(old(dest)@.last(), action) is Some ==> final(dest)@.len()
            == old(dest)@.len(),
        final(dest)@.len() == old(dest)@.len() || final(dest)@.len() == old(dest)@.len() + 1,
        final(dest)@.len() > 0,
        old(dest)@.len() == 0 ==> final(dest)@ == seq![action],
{
    action.append_to(dest);
}

/// `Parser::new`: a decoder that has seen no bytes. Nothing is claimed of
/// it.
#[verifier::external_body]
pub(crate) fn new_parser() -> Parser {
    Parser::new()
}

/// `Parser::parse_as_vec`: feeds `bytes` to the decoder and returns the
/// actions that they complete, in order. Claimed is only that these depend
/// on nothing but the bytes and the state that earlier chunks left the
/// decoder in.
#[verifier::external_body]
pub(crate) fn decode(parser: &mut Parser, bytes: &[u8]) -> (actions: Vec<Action>)
    ensures
        actions@ == decoded(*old(parser), bytes@),
{
    parser.parse_as_vec(bytes)
}

} // verus!
