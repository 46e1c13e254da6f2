use vstd::prelude::*;
use crate::block::{BlockType, all_block_types, kind_name, lemma_all_block_types, BLOCK_TYPE_COUNT};
use crate::command_suggester::str_views;
use crate::lexing::{chars_equal, str_chars};

verus! {

/// Offers block names for the `use` command.
pub struct BlockSuggester;

/// The name of every block kind, in declaration order.
pub open spec fn block_names() -> Seq<Seq<char>> {
    all_block_types().map_values(|t: BlockType| kind_name(t))
}

/// Whether the (lower-cased) text asks for every block name, unranked: when it is empty or
/// is the command word itself.
pub open spec fn lists_every_block(typed: Seq<char>) -> bool {
    typed.len() == 0 || typed == "use"@
}

impl BlockSuggester {
    /// The name of every block kind, in declaration order.
    pub fn block_names() -> (r: Vec<&'static str>)
        ensures
            str_views(r@) == block_names(),
    {
        let kinds = BlockType::all();
        let mut r: Vec<&'static str> = Vec::new();
        proof {
            lemma_all_block_types();
        }
        for i in 0..kinds.len()
            invariant
                kinds@ == all_block_types(),
                kinds@.len() == BLOCK_TYPE_COUNT,
                r@.len() == i,
                str_views(r@) == block_names().take(i as int),
        {
            let ghost prev = r@;
            let nm = kinds[i].name();
            r.push(nm);
            assert forall|k: int| 0 <= k < i + 1 implies #[trigger] str_views(r@)[k]
                == block_names().take(i + 1)[k] by {
                if k < i {
                    assert(str_views(prev)[k] == block_names().take(i as int)[k]);
                }
            }
            assert(str_views(r@) =~= block_names().take(i + 1));
        }
        assert(block_names().take(kinds.len() as int) =~= block_names());
        r
    }

    /// Whether the lower-cased text `typed` asks for every block name, unranked.
    pub fn lists_everything(typed: &str) -> (r: bool)
        ensures
            r == lists_every_block(typed@),
    {
        let t = str_chars(typed);
        let r = t.len() == 0 || chars_equal(&t, &str_chars("use"));
        r
    }
}

} // verus!
