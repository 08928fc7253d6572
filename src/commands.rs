//! The table of named commands that the embedded front end may invoke on the
//! native side. A name that is not in the table is left to the runtime, which
//! answers it as an unknown command.

use vstd::prelude::*;

verus! {

/// The names of the commands that the front end may invoke.
pub struct CommandTable {
    names: Vec<String>,
}

/// The names of the commands that the shell ships with: none.
pub open spec fn shipped_names() -> Seq<Seq<char>> {
    Seq::empty()
}

impl View for CommandTable {
    type V = Seq<Seq<char>>;

    closed spec fn view(&self) -> Seq<Seq<char>> {
        self.names@.map_values(|n: String| n@)
    }
}

impl CommandTable {
    /// The table as shipped. No command is registered in it.
    pub fn shipped() -> (r: Self)
        ensures
            r@ == shipped_names(),
    {
        let r = CommandTable { names: Vec::new() };
        assert(r@ =~= shipped_names());
        r
    }

    /// The number of registered commands.
    pub fn len(&self) -> (r: usize)
        ensures
            r == self@.len(),
    {
        self.names.len()
    }

    /// Whether the front end may invoke the command called `name`.
    pub fn accepts(&self, name: &str) -> (r: bool)
        ensures
            r == self@.contains(name@),
    {
        let wanted = name.to_owned();
        let mut i: usize = 0;
        while i < self.names.len()
            invariant
                i <= self.names@.len(),
                wanted@ == name@,
                forall|j: int| 0 <= j < i ==> self@[j] != name@,
            decreases self.names@.len() - i,
        {
            if self.names[i] == wanted {
                assert(self@[i as int] == name@);
                return true;
            }
            i = i + 1;
        }
        false
    }
}

/// Whether the shell, as shipped, handles the command called `name`. The
/// front end's invocations are routed through this; a `false` leaves the name
/// to the runtime's handling of unknown commands.
pub fn handles(name: &str) -> (r: bool)
    ensures
        r == shipped_names().contains(name@),
        !r,
{
    let table = CommandTable::shipped();
    table.accepts(name)
}

/// The shipped table admits no command: every name that the front end may send
/// is rejected.
pub proof fn lemma_shipped_table_rejects_every_name(name: Seq<char>)
    ensures
        shipped_names().len() == 0,
        !shipped_names().contains(name),
{
}

} // verus!
