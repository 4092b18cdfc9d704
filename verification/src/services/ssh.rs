//! Builds the invocation of the external connection-protocol client for a
//! connection-protocol service: the connection target `[user@]host`, then
//! `-p <port>` if a port is set, then `-i<key_file>` if a credential file
//! is set, then the command to run, if any. Running the invocation is the
//! caller's business; this module only says exactly what to run.

use vstd::prelude::*;

use crate::config::{SshConfiguration, SshConfigurationV};

verus! {

/// A plan for one external-process invocation: the program to look up on
/// the search path and its arguments, in order.
#[derive(Clone, Debug, PartialEq)]
pub struct Invocation {
    pub program: String,
    pub args: Vec<String>,
}

/// The mathematical model of an `Invocation`.
pub struct InvocationV {
    pub program: Seq<char>,
    pub args: Seq<Seq<char>>,
}

impl DeepView for Invocation {
    type V = InvocationV;

    open spec fn deep_view(&self) -> InvocationV {
        InvocationV { program: self.program@, args: self.args.deep_view() }
    }
}

/// The decimal digit character for one digit value.
pub open spec fn spec_digit(d: nat) -> char {
    if d == 0 {
        '0'
    } else if d == 1 {
        '1'
    } else if d == 2 {
        '2'
    } else if d == 3 {
        '3'
    } else if d == 4 {
        '4'
    } else if d == 5 {
        '5'
    } else if d == 6 {
        '6'
    } else if d == 7 {
        '7'
    } else if d == 8 {
        '8'
    } else {
        '9'
    }
}

/// The decimal digits of a number, most significant first, without leading
/// zeros (a lone zero for zero itself).
pub open spec fn spec_decimal(n: nat) -> Seq<char>
    decreases n,
{
    if n < 10 {
        seq![spec_digit(n)]
    } else {
        spec_decimal(n / 10) + seq![spec_digit(n % 10)]
    }
}

fn digit_str(d: u16) -> (r: &'static str)
    requires
        d < 10,
    ensures
        r@ == seq![spec_digit(d as nat)],
{
    proof {
        reveal_strlit("0");
        reveal_strlit("1");
        reveal_strlit("2");
        reveal_strlit("3");
        reveal_strlit("4");
        reveal_strlit("5");
        reveal_strlit("6");
        reveal_strlit("7");
        reveal_strlit("8");
        reveal_strlit("9");
    }
    if d == 0 {
        proof {
            assert("0"@ =~= seq!['0']);
        }
        "0"
    } else if d == 1 {
        proof {
            assert("1"@ =~= seq!['1']);
        }
        "1"
    } else if d == 2 {
        proof {
            assert("2"@ =~= seq!['2']);
        }
        "2"
    } else if d == 3 {
        proof {
            assert("3"@ =~= seq!['3']);
        }
        "3"
    } else if d == 4 {
        proof {
            assert("4"@ =~= seq!['4']);
        }
        "4"
    } else if d == 5 {
        proof {
            assert("5"@ =~= seq!['5']);
        }
        "5"
    } else if d == 6 {
        proof {
            assert("6"@ =~= seq!['6']);
        }
        "6"
    } else if d == 7 {
        proof {
            assert("7"@ =~= seq!['7']);
        }
        "7"
    } else if d == 8 {
        proof {
            assert("8"@ =~= seq!['8']);
        }
        "8"
    } else {
        proof {
            assert("9"@ =~= seq!['9']);
        }
        "9"
    }
}

/// Appends the decimal digits of `n` to `out`.
fn push_decimal(n: u16, out: &mut String)
    ensures
        final(out)@ == old(out)@ + spec_decimal(n as nat),
    decreases n,
{
    if n >= 10 {
        proof {
            assert(n / 10 < n) by (nonlinear_arith)
                requires
                    n >= 10,
            ;
        }
        let ghost before = out@;
        push_decimal(n / 10, out);
        out.append(digit_str(n % 10));
        proof {
            assert((before + spec_decimal((n / 10) as nat)) + seq![spec_digit((n % 10) as nat)]
                =~= before + spec_decimal(n as nat));
        }
    } else {
        out.append(digit_str(n));
    }
}

/// The connection target handed to the client: `user@host` when a user is
/// set, the bare host otherwise.
pub open spec fn spec_connection_string(c: SshConfigurationV) -> Seq<char> {
    match c.user {
        Some(u) => u + "@"@ + c.host,
        None => c.host,
    }
}

/// The client's argument list for a service, with the command to run, if
/// any, as the one trailing argument.
pub open spec fn spec_ssh_args(c: SshConfigurationV, command: Option<Seq<char>>) -> Seq<Seq<char>> {
    seq![spec_connection_string(c)] + (match c.port {
        Some(p) => seq!["-p "@ + spec_decimal(p as nat)],
        None => Seq::<Seq<char>>::empty(),
    }) + (match c.key_file {
        Some(k) => seq!["-i"@ + k],
        None => Seq::<Seq<char>>::empty(),
    }) + (match command {
        Some(cmd) => seq![cmd],
        None => Seq::<Seq<char>>::empty(),
    })
}

/// The whole invocation plan for a service: the `ssh` client with the
/// arguments above.
pub open spec fn spec_invocation(c: SshConfigurationV, command: Option<Seq<char>>) -> InvocationV {
    InvocationV { program: "ssh"@, args: spec_ssh_args(c, command) }
}

impl SshConfiguration {
    /// The invocation of the external client for this service, without a
    /// trailing command.
    fn as_command(&self) -> (inv: Invocation)
        ensures
            inv.deep_view() == spec_invocation(self.deep_view(), None),
    {
        let connection_string: String = match &self.user {
            Some(user) => {
                let mut cs = user.clone();
                cs.append("@");
                cs.append(self.host.as_str());
                cs
            },
            None => self.host.clone(),
        };
        let mut args: Vec<String> = Vec::new();
        args.push(connection_string);
        if let Some(port) = self.port {
            let mut p = String::from_str("-p ");
            push_decimal(port, &mut p);
            args.push(p);
        }
        if let Some(key_file) = &self.key_file {
            let mut k = String::from_str("-i");
            k.append(key_file.as_str());
            args.push(k);
        }
        let inv = Invocation { program: String::from_str("ssh"), args };
        proof {
            assert(inv.args.deep_view() =~= spec_ssh_args(self.deep_view(), None));
        }
        inv
    }
}

/// The invocation that opens an interactive session on the service.
pub fn enter_ssh(config: &SshConfiguration) -> (inv: Invocation)
    ensures
        inv.deep_view() == spec_invocation(config.deep_view(), None),
{
    config.as_command()
}

/// The invocation that runs one literal command line on the service.
pub fn run_command(config: &SshConfiguration, command: &str) -> (inv: Invocation)
    ensures
        inv.deep_view() == spec_invocation(config.deep_view(), Some(command@)),
{
    let mut inv = config.as_command();
    let ghost before = inv.args.deep_view();
    inv.args.push(command.to_owned());
    proof {
        assert(inv.args.deep_view() =~= before + seq![command@]);
        assert(before + seq![command@] =~= spec_ssh_args(config.deep_view(), Some(command@)));
    }
    inv
}

} // verus!
