//! The `-V` / `--version` flag on a clap command.

use clap::{Arg, ArgAction, Command};
use vstd::prelude::*;

use crate::banner::ColorfulVersion;

verus! {

/// clap's command builder, carried through as an opaque value.
#[verifier::external_type_specification]
#[verifier::external_body]
pub struct ExCommand(Command);

/// clap's argument builder, carried through as an opaque value.
#[verifier::external_type_specification]
#[verifier::external_body]
pub struct ExArg(Arg);

/// clap's argument actions; its variants carry no data.
#[verifier::external_type_specification]
pub struct ExArgAction(ArgAction);

/// The id under which the version flag is registered; look it up with
/// `ArgMatches::get_flag`.
pub const VERSION_FLAG_ID: &'static str = "clap_version_flag_version";

/// Relies on clap's `Command::disable_version_flag`: switches clap's own
/// version flag off (`true`) or on.
#[verifier::external_body]
fn disable_version_flag(cmd: Command, yes: bool) -> Command {
    cmd.disable_version_flag(yes)
}

/// Relies on clap's `Command::arg`: adds an argument to the command.
#[verifier::external_body]
fn add_arg(cmd: Command, arg: Arg) -> Command {
    cmd.arg(arg)
}

/// Relies on clap's `Arg::new`: an argument with the given id.
#[verifier::external_body]
fn arg_new(id: &'static str) -> Arg {
    Arg::new(id)
}

/// Relies on clap's `Arg::short`; clap asserts in debug builds that the
/// letter is not `-`.
#[verifier::external_body]
fn arg_short(arg: Arg, letter: char) -> Arg
    requires
        letter != '-',
{
    arg.short(letter)
}

/// Relies on clap's `Arg::long`: the long name, without `--`.
#[verifier::external_body]
fn arg_long(arg: Arg, name: &'static str) -> Arg {
    arg.long(name)
}

/// Relies on clap's `Arg::action`.
#[verifier::external_body]
fn arg_action(arg: Arg, action: ArgAction) -> Arg {
    arg.action(action)
}

/// Relies on clap's `Arg::help`: the line shown by `--help`.
#[verifier::external_body]
fn arg_help(arg: Arg, help: &'static str) -> Arg {
    arg.help(help)
}

/// Relies on clap's `Arg::global`: whether subcommands see the argument too.
#[verifier::external_body]
fn arg_global(arg: Arg, yes: bool) -> Arg {
    arg.global(yes)
}

/// Registers the colourful version flag on a command.
pub trait ColorfulVersionExt: Sized {
    /// Switches off the parser's own version flag and adds a global boolean
    /// flag `-V` / `--version` under `VERSION_FLAG_ID`.
    fn with_colorful_version(self, version: &ColorfulVersion) -> Self;
}

impl ColorfulVersionExt for Command {
    fn with_colorful_version(self, _version: &ColorfulVersion) -> Self {
        let flag = arg_new(VERSION_FLAG_ID);
        let flag = arg_short(flag, 'V');
        let flag = arg_long(flag, "version");
        let flag = arg_action(flag, ArgAction::SetTrue);
        let flag = arg_help(flag, "Print version information");
        let flag = arg_global(flag, true);
        add_arg(disable_version_flag(self, true), flag)
    }
}

} // verus!
