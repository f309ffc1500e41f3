//! Compile requests: the compiler's argument list and how its exit status
//! and output streams become a result.

use vstd::prelude::*;
use vstd::utf8::{decode_utf8, valid_utf8};
use crate::stage::Stage;

verus! {

/// A request to compile one file.
pub struct CompileShaderOptions<'a> {
    /// -stage <stage>: the stage of the entry-point function.
    pub stage: Option<Stage>,
    /// -profile <profile>: the target profile.
    pub profile: Option<&'a str>,
    /// -entry <entry-point>: the entry-point function.
    pub entry_point: Option<&'a str>,
    /// -target <target>: the target language.
    pub target: Option<&'a str>,
    /// File to compile.
    pub file: &'a str,
}

/// `[flag, value]` when a value is given, nothing otherwise.
pub open spec fn flag_pair(flag: Seq<char>, value: Option<Seq<char>>) -> Seq<Seq<char>> {
    match value {
        Some(v) => seq![flag, v],
        None => Seq::empty(),
    }
}

pub open spec fn str_opt_view(o: Option<&str>) -> Option<Seq<char>> {
    match o {
        Some(s) => Some(s@),
        None => None,
    }
}

impl<'a> CompileShaderOptions<'a> {
    /// The command line after the program name: stage, profile, entry point
    /// and target, each only when given and in that order, then the file.
    pub open spec fn spec_arguments(&self) -> Seq<Seq<char>> {
        flag_pair(
            "-stage"@,
            match self.stage {
                Some(s) => Some(s.token()),
                None => None,
            },
        ) + flag_pair("-profile"@, str_opt_view(self.profile)) + flag_pair(
            "-entry"@,
            str_opt_view(self.entry_point),
        ) + flag_pair("-target"@, str_opt_view(self.target)) + seq![self.file@]
    }

    /// The arguments to hand the compiler for this request.
    pub fn arguments<'b>(&'b self) -> (r: Vec<&'b str>)
        ensures
            r@.map_values(|x: &str| x@) == self.spec_arguments(),
    {
        let mut args: Vec<&'b str> = Vec::new();
        let ghost mut expect: Seq<Seq<char>> = Seq::empty();
        if let Some(stage) = &self.stage {
            args.push("-stage");
            args.push(stage.to_str());
        }
        proof {
            expect = flag_pair(
                "-stage"@,
                match self.stage {
                    Some(s) => Some(s.token()),
                    None => None,
                },
            );
            assert(args@.map_values(|x: &str| x@) =~= expect);
        }
        if let Some(profile) = self.profile {
            args.push("-profile");
            args.push(profile);
        }
        proof {
            expect = expect + flag_pair("-profile"@, str_opt_view(self.profile));
            assert(args@.map_values(|x: &str| x@) =~= expect);
        }
        if let Some(entry_point) = self.entry_point {
            args.push("-entry");
            args.push(entry_point);
        }
        proof {
            expect = expect + flag_pair("-entry"@, str_opt_view(self.entry_point));
            assert(args@.map_values(|x: &str| x@) =~= expect);
        }
        if let Some(target) = self.target {
            args.push("-target");
            args.push(target);
        }
        proof {
            expect = expect + flag_pair("-target"@, str_opt_view(self.target));
            assert(args@.map_values(|x: &str| x@) =~= expect);
        }
        args.push(self.file);
        proof {
            expect = expect + seq![self.file@];
            assert(args@.map_values(|x: &str| x@) =~= expect);
        }
        args
    }
}

/// A compilation the compiler refused; `message` is its diagnostic output.
#[derive(Clone, Debug, PartialEq, Eq)]
pub struct CompileError {
    pub message: String,
}

/// Relies on std's `String::from_utf8`: it accepts exactly the valid UTF-8
/// byte sequences, and the string it returns holds the characters they encode.
#[verifier::external_body]
fn string_from_utf8(bytes: Vec<u8>) -> (r: Option<String>)
    ensures
        r is Some <==> valid_utf8(bytes@),
        r matches Some(s) ==> s@ == decode_utf8(bytes@),
{
    String::from_utf8(bytes).ok()
}

/// The result of a finished compiler run: its standard output, unchanged, when
/// it exited successfully; otherwise an error whose text is its standard error.
/// The diagnostics of a failed run must be text.
pub fn compile_outcome(success: bool, stdout: Vec<u8>, stderr: Vec<u8>) -> (r: Result<
    Vec<u8>,
    CompileError,
>)
    requires
        success || valid_utf8(stderr@),
    ensures
        success ==> (r matches Ok(out) && out@ == stdout@),
        !success ==> (r matches Err(e) && e.message@ == decode_utf8(stderr@)),
{
    if success {
        Ok(stdout)
    } else {
        let message = string_from_utf8(stderr).unwrap();
        Err(CompileError { message })
    }
}

} // verus!
