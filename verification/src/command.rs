//! The command `printHex`: from its arguments to a read request, and from
//! the outcome of the read to the lines of the dump.

use crate::dump::{is_styled_dump, render};
use crate::memory::SparseByteMap;
use crate::numeral::{byte_count, str_to_num};
use crate::row::{fits_address_space, in_address_space};
use crate::style::Rgb;
use crate::text::{decimal, push_decimal, texts};
use vstd::prelude::*;
use vstd::string::*;

verus! {

/// The place in the palette of the colour of the banner and of the offset
/// labels.
pub const BANNER_COLOR: usize = 5;

/// The place in the palette of the colour of the two sentinel texts.
pub const SENTINEL_COLOR: usize = 4;

/// How many arguments the command takes.
pub const ARGUMENTS: u64 = 1;

/// What a request that reaches beyond the address space is answered with.
pub const OUT_OF_RANGE: &'static str = "the requested range reaches beyond the address space";

/// The address space that addresses are read in.
#[derive(Clone, Copy, Debug, PartialEq, Eq)]
pub enum AddrMode {
    /// Physical addresses.
    Phy,
    /// Virtual addresses.
    Vir,
}

/// What the command reads of the session around it.
#[derive(Clone, Copy, Debug, PartialEq, Eq)]
pub struct Context {
    /// The address that the dump starts at.
    pub loc: u64,
    /// The address space that `loc` lies in.
    pub mode: AddrMode,
    /// The colour of the banner and of the offset labels.
    pub banner: Rgb,
    /// The colour of the two sentinel texts.
    pub sentinel: Rgb,
}

impl Context {
    /// The context of a session at `loc` in `mode`, with the two colours
    /// that the command uses taken from their places in `palette`; `None`
    /// where the palette is too short to hold them.
    pub fn from_palette(loc: u64, mode: AddrMode, palette: &[Rgb]) -> (ctx: Option<Context>)
        ensures
            palette@.len() <= BANNER_COLOR ==> ctx is None,
            palette@.len() > BANNER_COLOR ==> ctx == Some(
                Context {
                    loc,
                    mode,
                    banner: palette@[BANNER_COLOR as int],
                    sentinel: palette@[SENTINEL_COLOR as int],
                },
            ),
    {
        if palette.len() > BANNER_COLOR {
            Some(Context { loc, mode, banner: palette[BANNER_COLOR], sentinel: palette[SENTINEL_COLOR] })
        } else {
            None
        }
    }
}

/// Why the command gave up. Each of these ends the command without a dump.
#[derive(Debug, PartialEq, Eq)]
pub enum CmdError {
    /// The command was given another number of arguments than it takes.
    Arity { expected: u64, found: u64 },
    /// The argument is no byte count.
    Parse { token: String },
    /// The memory could not be read.
    Read { cause: String },
}

impl CmdError {
    /// The diagnostic as one line of text, which names the offending input
    /// or the underlying cause.
    pub open spec fn text(self) -> Seq<char> {
        match self {
            CmdError::Arity { expected, found } => "Expected "@ + decimal(expected as nat)
                + " argument(s), found "@ + decimal(found as nat),
            CmdError::Parse { token } => "Expect Hex, binary, Octal or Decimal value but found "@
                + token@ + " instead"@,
            CmdError::Read { cause } => "Read Failed: "@ + cause@,
        }
    }

    /// The diagnostic as one line of text.
    pub fn message(&self) -> (out: String)
        ensures
            out@ == self.text(),
    {
        let mut out = String::new();
        match self {
            CmdError::Arity { expected, found } => {
                out.append("Expected ");
                push_decimal(&mut out, *expected);
                out.append(" argument(s), found ");
                push_decimal(&mut out, *found);
            },
            CmdError::Parse { token } => {
                out.append("Expect Hex, binary, Octal or Decimal value but found ");
                out.append(token.as_str());
                out.append(" instead");
            },
            CmdError::Read { cause } => {
                out.append("Read Failed: ");
                out.append(cause.as_str());
            },
        }
        assert(out@ =~= self.text());
        out
    }
}

/// What the command shows of itself in a list of commands.
#[derive(Debug, PartialEq, Eq)]
pub struct Help {
    /// The name of the command.
    pub name: &'static str,
    /// The short name of the command.
    pub alias: &'static str,
    /// Each way to call the command: the arguments, and what it then does.
    pub usage: Vec<(&'static str, &'static str)>,
}

/// The name of the command.
pub const NAME: &'static str = "printHex";

/// The short name of the command.
pub const ALIAS: &'static str = "px";

/// The arguments of the command.
pub const USAGE: &'static str = "[size]";

/// What the command does.
pub const SUMMARY: &'static str = "View data of at current location in hex format";

/// What the command asks the memory for.
#[derive(Clone, Copy, Debug, PartialEq, Eq)]
pub struct ReadRequest {
    /// The address space to read in.
    pub mode: AddrMode,
    /// The first address to read.
    pub loc: u64,
    /// How many bytes to read.
    pub size: u64,
}

/// The command that prints memory as a hex dump.
#[derive(Clone, Copy, Debug, PartialEq, Eq)]
pub struct PrintHex {}

impl Default for PrintHex {
    fn default() -> (cmd: PrintHex)
        ensures
            cmd == (PrintHex {  }),
    {
        PrintHex {  }
    }
}

impl PrintHex {
    /// The command. It keeps nothing from one run to the next.
    pub fn new() -> (cmd: PrintHex)
        ensures
            cmd == (PrintHex {  }),
    {
        PrintHex {  }
    }

    /// What the command shows of itself in a list of commands.
    pub fn help(&self) -> (help: Help)
        ensures
            help.name@ == NAME@,
            help.alias@ == ALIAS@,
            help.usage@.len() == 1,
            help.usage@[0].0@ == USAGE@,
            help.usage@[0].1@ == SUMMARY@,
    {
        let mut usage: Vec<(&'static str, &'static str)> = Vec::new();
        usage.push((USAGE, SUMMARY));
        Help { name: NAME, alias: ALIAS, usage }
    }

    /// The first half of a run: from the arguments to what has to be read.
    ///
    /// The command takes one argument, the byte count. Another number of
    /// arguments is an arity error, whatever the arguments are. An argument
    /// that is no byte count is a parse error that carries the argument. A
    /// region that does not fit into the address space is a read error. In
    /// every other case the request is for `size` bytes at the session's
    /// address, in the session's address space.
    pub fn plan(&self, ctx: &Context, args: &[String]) -> (plan: Result<ReadRequest, CmdError>)
        ensures
            args@.len() != ARGUMENTS ==> plan == Err::<ReadRequest, CmdError>(
                CmdError::Arity { expected: ARGUMENTS, found: args@.len() as u64 },
            ),
            args@.len() == ARGUMENTS ==> match byte_count(args@[0]@) {
                None => plan matches Err(CmdError::Parse { token }) && token@ == args@[0]@,
                Some(size) => if in_address_space(ctx.loc, size) {
                    plan == Ok::<ReadRequest, CmdError>(
                        ReadRequest { mode: ctx.mode, loc: ctx.loc, size },
                    )
                } else {
                    plan matches Err(CmdError::Read { cause }) && cause@ == OUT_OF_RANGE@
                },
            },
    {
        let found: u64 = args.len() as u64;
        if found != ARGUMENTS {
            return Err(CmdError::Arity { expected: ARGUMENTS, found });
        }
        let token = &args[0];
        match str_to_num(token.as_str()) {
            None => Err(CmdError::Parse { token: token.clone() }),
            Some(size) => {
                if fits_address_space(ctx.loc, size) {
                    Ok(ReadRequest { mode: ctx.mode, loc: ctx.loc, size })
                } else {
                    Err(CmdError::Read { cause: OUT_OF_RANGE.to_string() })
                }
            },
        }
    }

    /// The second half of a run: from the outcome of the read to the lines
    /// of the dump.
    ///
    /// A read that failed is a read error that carries the diagnostic of
    /// the memory. So is a region that does not fit into the address space.
    /// In every other case the result is the styled dump of the region,
    /// line by line.
    pub fn run(
        &self,
        ctx: &Context,
        request: &ReadRequest,
        outcome: Result<SparseByteMap, String>,
    ) -> (out: Result<Vec<String>, CmdError>)
        ensures
            match outcome {
                Err(diagnostic) => out matches Err(CmdError::Read { cause }) && cause@
                    == diagnostic@,
                Ok(data) => if in_address_space(request.loc, request.size) {
                    out matches Ok(lines) && is_styled_dump(
                        texts(lines@),
                        request.loc,
                        request.size,
                        data@,
                        ctx.banner,
                        ctx.sentinel,
                    )
                } else {
                    out matches Err(CmdError::Read { cause }) && cause@ == OUT_OF_RANGE@
                },
            },
    {
        match outcome {
            Err(diagnostic) => Err(CmdError::Read { cause: diagnostic }),
            Ok(data) => {
                if fits_address_space(request.loc, request.size) {
                    Ok(render(request.loc, request.size, &data, ctx.banner, ctx.sentinel))
                } else {
                    Err(CmdError::Read { cause: OUT_OF_RANGE.to_string() })
                }
            },
        }
    }
}

} // verus!
