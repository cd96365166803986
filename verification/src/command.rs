//! The encoder's command line, as `ffmpeg_sidecar` builds it.
//!
//! The command is kept in the outside crate's own builder. What the library
//! proves about a command it states over `command_args`, the list of
//! arguments that the builder holds.
//!
//! No program can be handed an argument with a NUL character in it, and the
//! builder does not keep such an argument as it was given. So every
//! statement about what a command holds is made of arguments without one.

use vstd::prelude::*;
use ffmpeg_sidecar::command::FfmpegCommand;

verus! {

/// `ffmpeg_sidecar::command::FfmpegCommand`, the builder of a command line
/// for the encoder. The library sees nothing inside it.
#[verifier::external_type_specification]
#[verifier::external_body]
pub struct ExFfmpegCommand(FfmpegCommand);

/// The arguments that a command holds, in the order in which the encoder
/// will get them: what `FfmpegCommand::get_args` yields.
pub uninterp spec fn command_args(cmd: FfmpegCommand) -> Seq<Seq<char>>;

/// Whether a text can be an argument: it holds no NUL character.
pub open spec fn is_passable(text: Seq<char>) -> bool {
    !text.contains('\0')
}

/// Whether every text of a list can be an argument.
pub open spec fn all_passable(args: Seq<Seq<char>>) -> bool {
    forall|i: int| 0 <= i < args.len() ==> is_passable(#[trigger] args[i])
}

/// Two lists can be arguments exactly where the one list of both can.
pub proof fn lemma_passable_concat(first: Seq<Seq<char>>, second: Seq<Seq<char>>)
    ensures
        all_passable(first + second) <==> all_passable(first) && all_passable(second),
{
    let both = first + second;
    if all_passable(both) {
        assert forall|i: int| 0 <= i < first.len() implies is_passable(#[trigger] first[i]) by {
            assert(both[i] == first[i]);
        }
        assert forall|i: int| 0 <= i < second.len() implies is_passable(
            #[trigger] second[i],
        ) by {
            assert(both[first.len() + i] == second[i]);
        }
    }
}

/// A list with one more text can be arguments exactly where the list and
/// the text can.
pub proof fn lemma_passable_push(args: Seq<Seq<char>>, last: Seq<char>)
    ensures
        all_passable(args.push(last)) <==> all_passable(args) && is_passable(last),
{
    let longer = args.push(last);
    if all_passable(longer) {
        assert(longer[args.len() as int] == last);
        assert forall|i: int| 0 <= i < args.len() implies is_passable(#[trigger] args[i]) by {
            assert(longer[i] == args[i]);
        }
    }
}

/// The texts of a list of string slices.
pub open spec fn str_views(args: Seq<&str>) -> Seq<Seq<char>> {
    args.map_values(|s: &str| s@)
}

/// The arguments of a command that nothing was added to: the log level that
/// the outside crate's reader of the encoder's output expects.
pub open spec fn initial_args() -> Seq<Seq<char>> {
    seq!["-loglevel"@, "level+info"@]
}

/// `FfmpegCommand::new`: a command for the encoder's binary, which holds the
/// two arguments that set the log level and no others.
#[verifier::external_body]
pub(crate) fn new_command() -> (cmd: FfmpegCommand)
    ensures
        command_args(cmd) == initial_args(),
{
    FfmpegCommand::new()
}

/// `FfmpegCommand::args`: adds the given arguments, in their order, behind
/// those that the command holds.
#[verifier::external_body]
pub(crate) fn add_args(cmd: &mut FfmpegCommand, args: &[&str])
    ensures
        all_passable(str_views(args@)) ==> command_args(*final(cmd)) == command_args(*old(cmd))
            + str_views(args@),
{
    cmd.args(args);
}

/// `FfmpegCommand::input`: adds `-i` and the path.
#[verifier::external_body]
pub(crate) fn add_input(cmd: &mut FfmpegCommand, path: &str)
    ensures
        is_passable(path@) ==> command_args(*final(cmd)) == command_args(*old(cmd)).push(
            "-i"@,
        ).push(path@),
{
    cmd.input(path);
}

/// `FfmpegCommand::format`: adds `-f` and the format's name.
#[verifier::external_body]
pub(crate) fn add_format(cmd: &mut FfmpegCommand, format: &str)
    ensures
        is_passable(format@) ==> command_args(*final(cmd)) == command_args(*old(cmd)).push(
            "-f"@,
        ).push(format@),
{
    cmd.format(format);
}

/// `FfmpegCommand::overwrite`: adds `-y`.
#[verifier::external_body]
pub(crate) fn add_overwrite(cmd: &mut FfmpegCommand)
    ensures
        command_args(*final(cmd)) == command_args(*old(cmd)).push("-y"@),
{
    cmd.overwrite();
}

/// `FfmpegCommand::output`: adds the path, with no flag before it.
#[verifier::external_body]
pub(crate) fn add_output(cmd: &mut FfmpegCommand, path: &str)
    ensures
        is_passable(path@) ==> command_args(*final(cmd)) == command_args(*old(cmd)).push(path@),
{
    cmd.output(path);
}

} // verus!
