use vstd::prelude::*;
use crate::reply::QueryReply;

verus! {

/// What the program does next, as the caller around the library carries it out.
#[derive(Debug)]
pub enum Action {
    /// Print the usage text and stop; nothing is sent.
    ShowUsage,
    /// Look up `hash` with the service.
    Query { hash: String },
    /// Write the unreadable body to the error stream and stop.
    ReportUnreadable { raw: String },
    /// Fetch the sample and write it to a file named `sha256`.
    Download { sha256: String },
    /// The hash cannot serve as a file name; say so and stop.
    RefuseFileName { name: String },
    /// Nothing is left to do.
    Finish,
}

/// An action with its text as character sequences.
pub enum Step {
    ShowUsage,
    Query(Seq<char>),
    ReportUnreadable(Seq<char>),
    Download(Seq<char>),
    RefuseFileName(Seq<char>),
    Finish,
}

impl View for Action {
    type V = Step;

    open spec fn view(&self) -> Step {
        match self {
            Action::ShowUsage => Step::ShowUsage,
            Action::Query { hash } => Step::Query(hash@),
            Action::ReportUnreadable { raw } => Step::ReportUnreadable(raw@),
            Action::Download { sha256 } => Step::Download(sha256@),
            Action::RefuseFileName { name } => Step::RefuseFileName(name@),
            Action::Finish => Step::Finish,
        }
    }
}

/// The command-line arguments (without the program's name) as text.
pub open spec fn args_view(args: Seq<String>) -> Seq<Seq<char>> {
    args.map_values(|s: String| s@)
}

/// Exactly one argument is a hash to look up; any other count asks for usage.
pub open spec fn first_step(args: Seq<Seq<char>>) -> Step {
    if args.len() == 1 {
        Step::Query(args[0])
    } else {
        Step::ShowUsage
    }
}

/// A character that may stand in a file name written to the working directory:
/// no path separator and no control character.
pub open spec fn name_char_allowed(c: char) -> bool {
    &&& c != '/'
    &&& c != '\\'
    &&& c as u32 >= 0x20
    &&& c as u32 != 0x7f
}

/// A name that denotes a plain file in the working directory.
pub open spec fn safe_file_name(s: Seq<char>) -> bool {
    &&& s.len() > 0
    &&& s != seq!['.']
    &&& s != seq!['.', '.']
    &&& forall|i: int| 0 <= i < s.len() ==> name_char_allowed(#[trigger] s[i])
}

/// The step after a lookup: a known sample is fetched under its SHA-256 (when
/// that is a safe file name), an unknown hash ends the run, an unreadable body
/// is reported.
pub open spec fn step_after_query(reply: QueryReply) -> Step {
    match reply {
        QueryReply::Found { sha256, .. } => if safe_file_name(sha256@) {
            Step::Download(sha256@)
        } else {
            Step::RefuseFileName(sha256@)
        },
        QueryReply::NotFound => Step::Finish,
        QueryReply::Unreadable { raw } => Step::ReportUnreadable(raw@),
    }
}

/// Decides what to do with the command-line arguments (the program's name left out).
pub fn first_action(args: &Vec<String>) -> (r: Action)
    ensures
        r@ == first_step(args_view(args@)),
{
    if args.len() == 1 {
        Action::Query { hash: args[0].clone() }
    } else {
        Action::ShowUsage
    }
}

fn allowed_char(c: char) -> (r: bool)
    ensures
        r == name_char_allowed(c),
{
    c != '/' && c != '\\' && (c as u32) >= 0x20 && (c as u32) != 0x7f
}

/// Whether `name` can be used as the name of the file the sample is written to.
pub fn is_safe_file_name(name: &str) -> (r: bool)
    ensures
        r == safe_file_name(name@),
{
    let n = name.unicode_len();
    if n == 0 {
        return false;
    }
    let mut i: usize = 0;
    while i < n
        invariant
            n == name@.len(),
            i <= n,
            forall|j: int| 0 <= j < i ==> name_char_allowed(#[trigger] name@[j]),
        decreases n - i,
    {
        if !allowed_char(name.get_char(i)) {
            return false;
        }
        i = i + 1;
    }
    let first = name.get_char(0);
    if n == 1 && first == '.' {
        assert(name@ =~= seq!['.']);
        return false;
    }
    if n == 2 && first == '.' && name.get_char(1) == '.' {
        assert(name@ =~= seq!['.', '.']);
        return false;
    }
    assert(name@ != seq!['.']) by {
        if n == 1 {
            assert(name@[0] != seq!['.'][0]);
        }
    }
    assert(name@ != seq!['.', '.']) by {
        if n == 2 {
            assert(name@[0] != seq!['.', '.'][0] || name@[1] != seq!['.', '.'][1]);
        }
    }
    true
}

/// Decides what follows a lookup.
pub fn action_after_query(reply: &QueryReply) -> (r: Action)
    ensures
        r@ == step_after_query(*reply),
{
    match reply {
        QueryReply::Found { sha256, .. } => {
            if is_safe_file_name(sha256.as_str()) {
                Action::Download { sha256: sha256.clone() }
            } else {
                Action::RefuseFileName { name: sha256.clone() }
            }
        },
        QueryReply::NotFound => Action::Finish,
        QueryReply::Unreadable { raw } => Action::ReportUnreadable { raw: raw.clone() },
    }
}

} // verus!
