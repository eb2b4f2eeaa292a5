//! Completion of partly typed commands.
use vstd::prelude::*;

use crate::command::{command_name, known_command_list, known_commands, Command};

verus! {

/// The characters of each string.
pub open spec fn names_of(v: Seq<String>) -> Seq<Seq<char>> {
    v.map_values(|s: String| s@)
}

/// The names of a list of commands.
pub open spec fn command_names(cs: Seq<Command>) -> Seq<Seq<char>> {
    cs.map_values(|c: Command| command_name(c))
}

/// The names in `names` that start with `prefix`, in their order.
pub open spec fn completions(names: Seq<Seq<char>>, prefix: Seq<char>) -> Seq<Seq<char>> {
    names.filter(|n: Seq<char>| prefix.is_prefix_of(n))
}

/// Completes input against a fixed list of command names.
pub struct CustomCompletion {
    /// The names offered, in order.
    pub commands: Vec<String>,
}

/// Whether the first `pos` characters of `line` start `s`.
fn starts_with_prefix(s: &str, line: &str, pos: usize) -> (r: bool)
    requires
        pos <= line@.len(),
    ensures
        r == line@.take(pos as int).is_prefix_of(s@),
{
    let n = s.unicode_len();
    if pos > n {
        return false;
    }
    let mut i: usize = 0;
    while i < pos
        invariant
            i <= pos,
            pos <= n,
            n == s@.len(),
            pos <= line@.len(),
            forall|j: int| 0 <= j < i ==> s@[j] == line@[j],
        decreases pos - i,
    {
        if s.get_char(i) != line.get_char(i) {
            assert(line@.take(pos as int)[i as int] != s@.subrange(0, pos as int)[i as int]);
            return false;
        }
        i = i + 1;
    }
    assert(line@.take(pos as int) =~= s@.subrange(0, pos as int));
    true
}

impl CustomCompletion {
    /// A completer over the known commands' names.
    pub fn new() -> (r: Self)
        ensures
            names_of(r.commands@) == command_names(known_commands()),
    {
        let table = known_command_list();
        let mut commands: Vec<String> = Vec::new();
        let mut i: usize = 0;
        while i < table.len()
            invariant
                i <= table@.len(),
                table@ == known_commands(),
                names_of(commands@) == command_names(table@.take(i as int)),
            decreases table.len() - i,
        {
            let name = String::from_str(table[i].name());
            assert(name@ == command_name(table@[i as int]));
            let ghost prev = commands@;
            commands.push(name);
            assert(names_of(commands@) =~= names_of(prev).push(name@));
            assert(table@.take(i + 1) =~= table@.take(i as int).push(table@[i as int]));
            assert(names_of(commands@) =~= command_names(table@.take(i + 1)));
            i = i + 1;
        }
        assert(table@.take(i as int) =~= table@);
        Self { commands }
    }

    /// The cursor offset `pos` (in characters) unchanged, and the names that
    /// start with the first `pos` characters of `line`, in order.
    pub fn complete(&self, line: &str, pos: usize) -> (r: (usize, Vec<String>))
        requires
            pos <= line@.len(),
        ensures
            r.0 == pos,
            names_of(r.1@) == completions(names_of(self.commands@), line@.take(pos as int)),
    {
        let ghost prefix = line@.take(pos as int);
        let ghost pred = |n: Seq<char>| prefix.is_prefix_of(n);
        let mut out: Vec<String> = Vec::new();
        let mut i: usize = 0;
        while i < self.commands.len()
            invariant
                i <= self.commands@.len(),
                pos <= line@.len(),
                prefix == line@.take(pos as int),
                pred == (|n: Seq<char>| prefix.is_prefix_of(n)),
                names_of(out@) == names_of(self.commands@.take(i as int)).filter(pred),
            decreases self.commands.len() - i,
        {
            let c = &self.commands[i];
            let ghost before = names_of(self.commands@.take(i as int));
            assert(names_of(self.commands@.take(i + 1)) =~= before.push(c@));
            proof {
                before.lemma_filter_push(c@, pred);
            }
            if starts_with_prefix(c.as_str(), line, pos) {
                out.push(c.clone());
                assert(names_of(out@) =~= names_of(self.commands@.take(i as int)).filter(pred).push(c@));
            }
            i = i + 1;
        }
        assert(self.commands@.take(i as int) =~= self.commands@);
        (pos, out)
    }
}

} // verus!
