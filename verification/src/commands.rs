//! Decisions and output of the command-line commands.

use vstd::prelude::*;

verus! {

/// What to do when a command needs an interactive terminal.
#[derive(PartialEq, Eq, Structural, Clone, Copy, Debug)]
pub enum TerminalCheck {
    /// Carry on.
    Proceed,
    /// Report the error and exit with status 1; `docker_hint` tells whether
    /// to add the hint about `docker run -it`.
    Refuse { docker_hint: bool },
}

/// Decides, from whether standard input is a terminal and whether the
/// program runs in Docker, what a command that needs a terminal does.
pub fn terminal_check(stdin_is_terminal: bool, in_docker: bool) -> (r: TerminalCheck)
    ensures
        stdin_is_terminal ==> r == TerminalCheck::Proceed,
        !stdin_is_terminal ==> r == (TerminalCheck::Refuse { docker_hint: in_docker }),
{
    if !stdin_is_terminal {
        TerminalCheck::Refuse { docker_hint: in_docker }
    } else {
        TerminalCheck::Proceed
    }
}

/// The message printed when standard input is not a terminal.
pub fn not_a_terminal_message() -> (r: String)
    ensures
        r@ == "Please run this command from an interactive terminal."@,
{
    String::from_str("Please run this command from an interactive terminal.")
}

/// The hint printed when running in Docker without a terminal.
pub fn docker_hint_message() -> (r: String)
    ensures
        r@ == "(have you forgotten `-it`?)"@,
{
    String::from_str("(have you forgotten `-it`?)")
}

/// The lines that the `client-keys` command prints for the client keys in
/// OpenSSH format: a heading, an instruction, an empty line, then one line
/// per key in order.
pub fn client_keys_report(keys: &Vec<String>) -> (r: Vec<String>)
    ensures
        r@.len() == keys@.len() + 3,
        r@[0]@ == "Warpgate SSH client keys:"@,
        r@[1]@ == "(add these to your target's authorized_keys file)"@,
        r@[2]@ == Seq::<char>::empty(),
        forall|i: int| 0 <= i < keys@.len() ==> #[trigger] r@[i + 3]@ == keys@[i]@,
{
    let mut r: Vec<String> = Vec::new();
    r.push(String::from_str("Warpgate SSH client keys:"));
    r.push(String::from_str("(add these to your target's authorized_keys file)"));
    r.push(String::new());
    let mut i: usize = 0;
    while i < keys.len()
        invariant
            i <= keys.len(),
            r@.len() == i + 3,
            r@[0]@ == "Warpgate SSH client keys:"@,
            r@[1]@ == "(add these to your target's authorized_keys file)"@,
            r@[2]@ == Seq::<char>::empty(),
            forall|j: int| 0 <= j < i ==> #[trigger] r@[j + 3]@ == keys@[j]@,
        decreases keys.len() - i,
    {
        r.push(keys[i].clone());
        i = i + 1;
    }
    r
}

} // verus!
