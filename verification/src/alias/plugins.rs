//! The list of enabled plugins, as the startup file declares it.

use crate::text::{
    chars_of, find_char, index_of, lines, seqs_of, split_lines, split_words, starts_with,
    starts_with_char, string_of, subvec, trim, trimmed, words,
};
use vstd::prelude::*;

verus! {

/// Whether a trimmed line opens the declaration of the plugins.
pub open spec fn opens_list(t: Seq<char>) -> bool {
    "plugins=("@.is_prefix_of(t) || "plugins =("@.is_prefix_of(t)
}

/// The words of a piece of the list, and whether the list goes on behind it:
/// the words before the first `)`, which closes the list; all words where
/// there is no `)`.
pub open spec fn list_piece(text: Seq<char>) -> (Seq<Seq<char>>, bool) {
    let close = index_of(text, ')');
    if 0 <= close < text.len() {
        (words(text.take(close)), false)
    } else {
        (words(text), true)
    }
}

/// What one line does to the plugins found so far and to whether the list is
/// open. A comment line does nothing. A line that opens the list gives the
/// words behind its first `(`. Any other line gives its words while the list
/// is open.
pub open spec fn after_line(state: (Seq<Seq<char>>, bool), line: Seq<char>) -> (
    Seq<Seq<char>>,
    bool,
) {
    let t = trim(line);
    if t.len() > 0 && t[0] == '#' {
        state
    } else if opens_list(t) {
        let piece = list_piece(t.skip(index_of(t, '(') + 1));
        (state.0 + piece.0, piece.1)
    } else if state.1 {
        let piece = list_piece(t);
        (state.0 + piece.0, piece.1)
    } else {
        state
    }
}

/// The plugins found in the lines, and whether the list is still open.
pub open spec fn after_lines(ls: Seq<Seq<char>>) -> (Seq<Seq<char>>, bool)
    decreases ls.len(),
{
    if ls.len() == 0 {
        (Seq::empty(), false)
    } else {
        after_line(after_lines(ls.drop_last()), ls.last())
    }
}

/// The names of the enabled plugins that the text of a startup file declares.
pub open spec fn parse_zsh_plugins_spec(content: Seq<char>) -> Seq<Seq<char>> {
    after_lines(lines(content)).0
}

/// Appends the words of a piece of the list; tells whether the list goes on.
fn take_piece(items: &mut Vec<String>, text: &Vec<char>) -> (open: bool)
    ensures
        final(items).deep_view() == old(items).deep_view() + list_piece(text@).0,
        open == list_piece(text@).1,
{
    let close = find_char(text, ')');
    let (found, open) = if close < text.len() {
        (split_words(&subvec(text, 0, close)), false)
    } else {
        (split_words(text), true)
    };
    let ghost start = items.deep_view();
    let mut k: usize = 0;
    while k < found.len()
        invariant
            k <= found.len(),
            items.deep_view() == start + seqs_of(found@).take(k as int),
        decreases found.len() - k,
    {
        let ghost before = items.deep_view();
        let word = string_of(&found[k]);
        items.push(word);
        assert(items.deep_view() =~= before.push(found@[k as int]@));
        k += 1;
    }
    open
}

/// Parses `plugins=(foo bar ...)` out of the text of a shell startup file.
/// The list may run over several lines; comment lines are passed over.
pub fn parse_zsh_plugins(content: &str) -> (items: Vec<String>)
    ensures
        items.deep_view() == parse_zsh_plugins_spec(content@),
{
    let all = split_lines(&chars_of(content));
    let prefix1 = chars_of("plugins=(");
    let prefix2 = chars_of("plugins =(");
    let mut items: Vec<String> = Vec::new();
    let mut inside = false;
    let mut i: usize = 0;
    let ghost ls = lines(content@);
    while i < all.len()
        invariant
            i <= all.len(),
            seqs_of(all@) == ls,
            prefix1@ == "plugins=("@,
            prefix2@ == "plugins =("@,
            (items.deep_view(), inside) == after_lines(ls.take(i as int)),
        decreases all.len() - i,
    {
        proof {
            assert(ls.take(i + 1).drop_last() == ls.take(i as int));
        }
        let t = trimmed(&all[i]);
        if starts_with_char(&t, '#') {
            // A comment line: nothing is taken from it.
        } else if starts_with(&t, &prefix1) || starts_with(&t, &prefix2) {
            let open = find_char(&t, '(');
            if open < t.len() {
                let after = subvec(&t, open + 1, t.len());
                inside = take_piece(&mut items, &after);
            } else {
                // A line that opens the list holds a `(`.
                proof {
                    reveal_strlit("plugins=(");
                    reveal_strlit("plugins =(");
                    if prefix1@.is_prefix_of(t@) {
                        assert(t@[8] == prefix1@[8]);
                    } else {
                        assert(t@[9] == prefix2@[9]);
                    }
                }
            }
        } else if inside {
            inside = take_piece(&mut items, &t);
        }
        i += 1;
    }
    assert(ls.take(all.len() as int) == ls);
    items
}

} // verus!
