//! Commands that the shell runs, as plain values.

use vstd::prelude::*;

use crate::text::maybe_text;
use crate::text::texts;

verus! {

/// A command line with its working directory and the variables added to its environment.
#[derive(Debug)]
pub struct Launch {
    pub program: String,
    pub args: Vec<String>,
    pub cwd: Option<String>,
    pub env: Vec<(String, String)>,
}

/// The texts of a [`Launch`].
#[verifier::ext_equal]
pub struct LaunchView {
    pub program: Seq<char>,
    pub args: Seq<Seq<char>>,
    pub cwd: Option<Seq<char>>,
    pub env: Seq<(Seq<char>, Seq<char>)>,
}

/// The texts of name and value pairs.
pub open spec fn pairs(v: Seq<(String, String)>) -> Seq<(Seq<char>, Seq<char>)> {
    v.map_values(|p: (String, String)| (p.0@, p.1@))
}

impl View for Launch {
    type V = LaunchView;

    open spec fn view(&self) -> LaunchView {
        LaunchView {
            program: self.program@,
            args: texts(self.args@),
            cwd: maybe_text(self.cwd),
            env: pairs(self.env@),
        }
    }
}

/// A command that has run to its end: how it ended and what it printed.
#[derive(Debug)]
pub struct Output {
    pub success: bool,
    pub code: Option<i32>,
    pub stdout: String,
    pub stderr: String,
}

/// The words as strings of their own.
pub fn words(list: &[&str]) -> (r: Vec<String>)
    ensures
        texts(r@) == list@.map_values(|w: &str| w@),
{
    let mut r: Vec<String> = Vec::new();
    let mut i: usize = 0;
    while i < list.len()
        invariant
            i <= list.len(),
            r.len() == i,
            forall|j: int| 0 <= j < i ==> (#[trigger] r@[j])@ == list@[j]@,
        decreases list.len() - i,
    {
        let word: &str = list[i];
        r.push(word.to_owned());
        i = i + 1;
    }
    assert(texts(r@) =~= list@.map_values(|w: &str| w@));
    r
}

/// A command is shown with its program, arguments, directory and variables as they are.
pub proof fn law_launch_shown(x: Launch)
    ensures
        x@.program == x.program@,
        x@.args.len() == x.args@.len(),
        forall|i: int| 0 <= i < x.args@.len() ==> #[trigger] x@.args[i] == x.args@[i]@,
        x.cwd is None ==> x@.cwd is None,
        x.cwd matches Some(s) ==> x@.cwd == Some(s@),
        x@.env.len() == x.env@.len(),
        forall|i: int|
            0 <= i < x.env@.len() ==> #[trigger] x@.env[i] == (x.env@[i].0@, x.env@[i].1@),
{
}

} // verus!
