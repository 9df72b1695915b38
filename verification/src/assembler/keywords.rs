//! The reserved words of the language.
//!
//! The table is a `hashbrown::HashMap` from a word to the mnemonic it
//! spells. Verus reads neither the map's code nor its type, whose allocator
//! parameter is bound by a trait that cannot be named from here. So the
//! table is a struct that Verus takes as opaque, its contents have a name,
//! `keyword_entries`, and the three calls into the map state what they do to
//! those contents. These statements are believed, not proved; everything
//! else here is proved from them.

use vstd::prelude::*;
use crate::assembler::tokens::Instruction;

verus! {

/// The table of reserved words: a `hashbrown::HashMap` that Verus does not
/// look into.
#[verifier::external_body]
pub struct Keywords {
    map: hashbrown::HashMap<String, Instruction>,
}

/// The entries of a table: the mnemonic stored under each word.
pub uninterp spec fn keyword_entries(table: Keywords) -> Map<Seq<char>, Instruction>;

/// `hashbrown::HashMap::new`: a map with no entries.
#[verifier::external_body]
fn table_new() -> (made: Keywords)
    ensures
        keyword_entries(made) == (Map::<Seq<char>, Instruction>::empty()),
{
    Keywords { map: hashbrown::HashMap::new() }
}

/// `hashbrown::HashMap::insert`: afterwards the map holds `instr` under
/// `word`, in place of what it held there before, and every other entry as
/// it was.
#[verifier::external_body]
fn table_insert(table: &mut Keywords, word: &str, instr: Instruction)
    ensures
        keyword_entries(*final(table)) == keyword_entries(*old(table)).insert(word@, instr),
{
    table.map.insert(word.to_string(), instr);
}

/// `hashbrown::HashMap::get`: the value stored under `word`, if there is
/// one. The map is not changed.
#[verifier::external_body]
fn table_get(table: &Keywords, word: &str) -> (found: Option<Instruction>)
    ensures
        found == (if keyword_entries(*table).contains_key(word@) {
            Some(keyword_entries(*table)[word@])
        } else {
            None
        }),
{
    table.map.get(word).copied()
}

/// The mnemonic that `word` spells, if it is reserved.
pub open spec fn keyword(word: Seq<char>) -> Option<Instruction> {
    if word == "push"@ {
        Some(Instruction::Push)
    } else if word == "pop"@ {
        Some(Instruction::Pop)
    } else if word == "dup"@ {
        Some(Instruction::Dup)
    } else if word == "swap"@ {
        Some(Instruction::Swap)
    } else if word == "add"@ {
        Some(Instruction::Add)
    } else if word == "sub"@ {
        Some(Instruction::Sub)
    } else if word == "mul"@ {
        Some(Instruction::Mul)
    } else if word == "div"@ {
        Some(Instruction::Div)
    } else if word == "jmp"@ {
        Some(Instruction::Jmp)
    } else if word == "jz"@ {
        Some(Instruction::Jz)
    } else if word == "jnz"@ {
        Some(Instruction::Jnz)
    } else if word == "call"@ {
        Some(Instruction::Call)
    } else if word == "trap"@ {
        Some(Instruction::Trap)
    } else {
        None
    }
}

impl Keywords {
    /// Whether the table holds exactly the reserved words, each with its
    /// mnemonic.
    pub open spec fn complete(&self) -> bool {
        forall|word: Seq<char>|
            keyword(word) == (if #[trigger] keyword_entries(*self).contains_key(word) {
                Some(keyword_entries(*self)[word])
            } else {
                None
            })
    }

    /// The table of the language's reserved words.
    pub fn new() -> (table: Keywords)
        ensures
            table.complete(),
    {
        let mut table = table_new();
        table_insert(&mut table, "push", Instruction::Push);
        table_insert(&mut table, "pop", Instruction::Pop);
        table_insert(&mut table, "dup", Instruction::Dup);
        table_insert(&mut table, "swap", Instruction::Swap);
        table_insert(&mut table, "add", Instruction::Add);
        table_insert(&mut table, "sub", Instruction::Sub);
        table_insert(&mut table, "mul", Instruction::Mul);
        table_insert(&mut table, "div", Instruction::Div);
        table_insert(&mut table, "jmp", Instruction::Jmp);
        table_insert(&mut table, "jz", Instruction::Jz);
        table_insert(&mut table, "jnz", Instruction::Jnz);
        table_insert(&mut table, "call", Instruction::Call);
        table_insert(&mut table, "trap", Instruction::Trap);
        proof {
            lemma_keywords_differ();
        }
        table
    }

    /// The mnemonic that `word` spells, if it is reserved.
    pub fn lookup(&self, word: &str) -> (found: Option<Instruction>)
        requires
            self.complete(),
        ensures
            found == keyword(word@),
    {
        table_get(self, word)
    }
}

/// No two reserved words are the same text: any two differ in length or in
/// one of their first two letters.
proof fn lemma_keywords_differ()
    ensures
        "push"@.len() == 4 && "push"@[0] == 'p' && "push"@[1] == 'u',
        "pop"@.len() == 3 && "pop"@[0] == 'p' && "pop"@[1] == 'o',
        "dup"@.len() == 3 && "dup"@[0] == 'd' && "dup"@[1] == 'u',
        "swap"@.len() == 4 && "swap"@[0] == 's' && "swap"@[1] == 'w',
        "add"@.len() == 3 && "add"@[0] == 'a' && "add"@[1] == 'd',
        "sub"@.len() == 3 && "sub"@[0] == 's' && "sub"@[1] == 'u',
        "mul"@.len() == 3 && "mul"@[0] == 'm' && "mul"@[1] == 'u',
        "div"@.len() == 3 && "div"@[0] == 'd' && "div"@[1] == 'i',
        "jmp"@.len() == 3 && "jmp"@[0] == 'j' && "jmp"@[1] == 'm',
        "jz"@.len() == 2 && "jz"@[0] == 'j' && "jz"@[1] == 'z',
        "jnz"@.len() == 3 && "jnz"@[0] == 'j' && "jnz"@[1] == 'n',
        "call"@.len() == 4 && "call"@[0] == 'c' && "call"@[1] == 'a',
        "trap"@.len() == 4 && "trap"@[0] == 't' && "trap"@[1] == 'r',
{
    reveal_strlit("push");
    reveal_strlit("pop");
    reveal_strlit("dup");
    reveal_strlit("swap");
    reveal_strlit("add");
    reveal_strlit("sub");
    reveal_strlit("mul");
    reveal_strlit("div");
    reveal_strlit("jmp");
    reveal_strlit("jz");
    reveal_strlit("jnz");
    reveal_strlit("call");
    reveal_strlit("trap");
}

} // verus!
