//! One-time passwords for the second factor, from the `oathtool` program.
//!
//! The secret is handed to the program on its standard input, so that no list of processes
//! shows it. Running the program is left to the caller.

use crate::text::{copy_of, texts, trim, trimmed};
use crate::types::TotpCode;
use vstd::prelude::*;
use vstd::string::*;

verus! {

/// Why there is no code.
#[derive(Debug)]
pub enum TotpError {
    ExecutionFailed(String),
    /// The program reported an error: what it wrote about it.
    OathtoolFailed(String),
    BuiltinNotImplemented,
}

impl TotpError {
    /// The error in words.
    pub open spec fn words(&self) -> Seq<char> {
        match self {
            TotpError::ExecutionFailed(e) => "failed to execute oathtool: "@ + e@,
            TotpError::OathtoolFailed(e) => "oathtool returned non-zero exit code: "@ + e@,
            TotpError::BuiltinNotImplemented =>
                "builtin TOTP provider not yet implemented \u{2014} use provider = \"oathtool\""@,
        }
    }

    /// The error in words.
    pub fn message(&self) -> (r: String)
        ensures
            r@ == self.words(),
    {
        match self {
            TotpError::ExecutionFailed(e) => {
                let mut s = copy_of("failed to execute oathtool: ");
                s.append(e.as_str());
                s
            },
            TotpError::OathtoolFailed(e) => {
                let mut s = copy_of("oathtool returned non-zero exit code: ");
                s.append(e.as_str());
                s
            },
            TotpError::BuiltinNotImplemented => copy_of(
                "builtin TOTP provider not yet implemented \u{2014} use provider = \"oathtool\"",
            ),
        }
    }
}

/// Where codes come from.
#[derive(Debug, Clone, Copy, PartialEq, Eq, Structural)]
pub enum TotpProvider {
    Oathtool,
    Builtin,
}

/// What a program left when it ended.
#[derive(Debug)]
pub struct ToolOutput {
    pub success: bool,
    pub stdout: String,
    pub stderr: String,
}

/// A source of codes.
pub trait TotpCodeGenerator {
    /// The arguments of the program that makes a code from a secret on its standard input.
    fn arguments(&self) -> Vec<String>;

    /// The code in what the program left.
    fn generate(&self, output: &ToolOutput) -> Result<TotpCode, TotpError>;
}

/// Codes from the `oathtool` program.
#[derive(Debug, Clone, Copy, PartialEq, Eq, Structural)]
pub struct OathtoolProvider;

impl TotpCodeGenerator for OathtoolProvider {
    fn arguments(&self) -> (r: Vec<String>)
        ensures
            texts(r@) == seq!["--totp"@, "--base32"@, "-"@],
    {
        let mut args: Vec<String> = Vec::new();
        args.push(copy_of("--totp"));
        args.push(copy_of("--base32"));
        args.push(copy_of("-"));
        assert(texts(args@) =~= seq!["--totp"@, "--base32"@, "-"@]);
        args
    }

    fn generate(&self, output: &ToolOutput) -> (r: Result<TotpCode, TotpError>)
        ensures
            match r {
                Ok(code) => output.success && code.view() == trimmed(output.stdout@),
                Err(TotpError::OathtoolFailed(e)) => !output.success && e@ == output.stderr@,
                Err(_) => false,
            },
    {
        if !output.success {
            return Err(TotpError::OathtoolFailed(output.stderr.clone()));
        }
        Ok(TotpCode::new(trim(output.stdout.as_str())))
    }
}

/// The source of codes for a provider; the builtin one does not exist.
pub fn create_provider(provider: TotpProvider) -> (r: Result<OathtoolProvider, TotpError>)
    ensures
        match provider {
            TotpProvider::Oathtool => r == Ok::<OathtoolProvider, TotpError>(OathtoolProvider),
            TotpProvider::Builtin => r matches Err(e) && e is BuiltinNotImplemented,
        },
{
    match provider {
        TotpProvider::Oathtool => Ok(OathtoolProvider),
        TotpProvider::Builtin => Err(TotpError::BuiltinNotImplemented),
    }
}

/// A code is what the program wrote, without the white space round it, where it succeeded, and
/// its complaint where it did not; only the program exists as a source of codes.
pub proof fn codes_come_from_the_program(
    p: OathtoolProvider,
    output: ToolOutput,
    r: Result<TotpCode, TotpError>,
    args: Vec<String>,
    provider: TotpProvider,
    made: Result<OathtoolProvider, TotpError>,
)
    requires
        call_ensures(OathtoolProvider::generate, (&p, &output), r),
        call_ensures(OathtoolProvider::arguments, (&p,), args),
        call_ensures(create_provider, (provider,), made),
    ensures
        r is Ok <==> output.success,
        r matches Ok(code) ==> code.view() == trimmed(output.stdout@),
        !output.success ==> (r matches Err(TotpError::OathtoolFailed(e)) && e@ == output.stderr@),
        texts(args@) == seq!["--totp"@, "--base32"@, "-"@],
        made is Ok <==> provider == TotpProvider::Oathtool,
{
}

/// An error on the code tells what was done and what came of it.
pub proof fn errors_tell_what_failed(e: TotpError, r: String)
    requires
        call_ensures(TotpError::message, (&e,), r),
    ensures
        e matches TotpError::ExecutionFailed(x) ==> {
            &&& crate::text::begins(r@, "failed to execute oathtool: "@)
            &&& crate::text::ends(r@, x@)
            &&& r@.len() == "failed to execute oathtool: "@.len() + x@.len()
        },
        e matches TotpError::OathtoolFailed(x) ==> {
            &&& crate::text::begins(r@, "oathtool returned non-zero exit code: "@)
            &&& crate::text::ends(r@, x@)
            &&& r@.len() == "oathtool returned non-zero exit code: "@.len() + x@.len()
        },
        e is BuiltinNotImplemented ==> r@ == "builtin TOTP provider not yet implemented \u{2014} use provider = \"oathtool\""@,
{
    match e {
        TotpError::ExecutionFailed(x) => {
            crate::text::parts_begin_and_end("failed to execute oathtool: "@, x@);
        },
        TotpError::OathtoolFailed(x) => {
            crate::text::parts_begin_and_end("oathtool returned non-zero exit code: "@, x@);
        },
        TotpError::BuiltinNotImplemented => {},
    }
}

} // verus!
