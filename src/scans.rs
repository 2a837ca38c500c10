//! Token substitution: a file or a folder offers `<token>` / value pairs, and
//! a template has each declared token replaced by its value.

use vstd::prelude::*;
use crate::text::{chars_of, replace_all, replace_all_chars, string_of, contains, matches_at};

verus! {

/// The token / value pairs as character sequences.
pub open spec fn pairs_view(v: Seq<(String, String)>) -> Seq<(Seq<char>, Seq<char>)> {
    v.map_values(|p: (String, String)| (p.0@, p.1@))
}

/// `s` with the pairs applied in order: every occurrence of the first token
/// replaced by its value, then of the second, and so on.
pub open spec fn replace_each(s: Seq<char>, pairs: Seq<(Seq<char>, Seq<char>)>) -> Seq<char>
    decreases pairs.len(),
{
    if pairs.len() == 0 {
        s
    } else {
        replace_all(replace_each(s, pairs.drop_last()), pairs.last().0, pairs.last().1)
    }
}

/// A token is written `<name>`: it opens with `<` and holds no other `<`.
pub open spec fn is_token(t: Seq<char>) -> bool {
    t.len() >= 2 && t[0] == '<' && t.last() == '>' && forall|i: int|
        1 <= i < t.len() ==> #[trigger] t[i] != '<'
}

/// A value that offers tokens for substitution in command templates.
pub trait ContentReplacer {
    /// The declared token / value pairs.
    spec fn pairs(&self) -> Seq<(Seq<char>, Seq<char>)>;

    /// The value that identifies this entry.
    spec fn identifier(&self) -> Seq<char>;

    fn main_identifier(&self) -> (r: String)
        ensures
            r@ == self.identifier(),
    ;

    fn token_pairs(&self) -> (r: Vec<(String, String)>)
        ensures
            pairs_view(r@) == self.pairs(),
    ;

    /// `s` with every declared token replaced by its value, token by token.
    fn replace_tokens(&self, s: &str) -> (r: String)
        ensures
            r@ == replace_each(s@, self.pairs()),
    {
        let pairs = self.token_pairs();
        let mut replaced = chars_of(s);
        let mut k: usize = 0;
        while k < pairs.len()
            invariant
                k <= pairs.len(),
                pairs_view(pairs@) == self.pairs(),
                replaced@ == replace_each(s@, pairs_view(pairs@).take(k as int)),
            decreases pairs.len() - k,
        {
            let token = chars_of(pairs[k].0.as_str());
            let value = chars_of(pairs[k].1.as_str());
            replaced = replace_all_chars(replaced.as_slice(), token.as_slice(), value.as_slice());
            k += 1;
            proof {
                let pv = pairs_view(pairs@);
                assert(pv.take(k as int).drop_last() =~= pv.take(k - 1));
            }
        }
        proof {
            assert(pairs_view(pairs@).take(k as int) =~= pairs_view(pairs@));
        }
        string_of(replaced.as_slice())
    }

    /// The declared tokens, in order.
    fn tokens(&self) -> (r: Vec<String>)
        ensures
            r@.len() == self.pairs().len(),
            forall|i: int| 0 <= i < r@.len() ==> #[trigger] r@[i]@ == self.pairs()[i].0,
    {
        let pairs = self.token_pairs();
        let mut r: Vec<String> = Vec::new();
        let mut k: usize = 0;
        while k < pairs.len()
            invariant
                k <= pairs.len(),
                pairs_view(pairs@) == self.pairs(),
                r@.len() == k,
                forall|i: int| 0 <= i < k ==> #[trigger] r@[i]@ == self.pairs()[i].0,
            decreases pairs.len() - k,
        {
            r.push(pairs[k].0.clone());
            k += 1;
        }
        r
    }
}

/// What a file offers to a template.
#[derive(Debug, PartialEq, Clone, Default)]
pub struct FileProperties {
    pub filestem: String,
    pub full_path: String,
    pub extension: String,
    pub path: String,
    pub folder_path: String,
}

/// What a folder offers to a template.
#[derive(Debug, PartialEq, Clone, Default)]
pub struct FolderProperties {
    pub full_path: String,
    pub path: String,
}

impl FolderProperties {
    pub open spec fn spec_pairs(&self) -> Seq<(Seq<char>, Seq<char>)> {
        seq![
            ("<input-folder-full-path>"@, self.full_path@),
            ("<input-folder-path>"@, self.path@),
        ]
    }

    /// A folder with empty values, to list the tokens a folder offers.
    pub fn empty() -> (r: FolderProperties)
        ensures
            r.full_path@.len() == 0,
            r.path@.len() == 0,
    {
        FolderProperties { full_path: String::new(), path: String::new() }
    }
}

impl ContentReplacer for FolderProperties {
    open spec fn pairs(&self) -> Seq<(Seq<char>, Seq<char>)> {
        self.spec_pairs()
    }

    open spec fn identifier(&self) -> Seq<char> {
        self.path@
    }

    fn main_identifier(&self) -> (r: String) {
        self.path.clone()
    }

    fn token_pairs(&self) -> (r: Vec<(String, String)>) {
        let r = vec![
            ("<input-folder-full-path>".to_owned(), self.full_path.clone()),
            ("<input-folder-path>".to_owned(), self.path.clone()),
        ];
        assert(pairs_view(r@) =~= self.spec_pairs());
        r
    }
}

impl FileProperties {
    pub open spec fn spec_pairs(&self) -> Seq<(Seq<char>, Seq<char>)> {
        seq![
            ("<input-file-full-path>"@, self.full_path@),
            ("<file-stem>"@, self.filestem@),
            ("<file-path>"@, self.path@),
            ("<folder-path>"@, self.folder_path@),
            ("<file-extension>"@, self.extension@),
        ]
    }

    /// A file with empty values, to list the tokens a file offers.
    pub fn empty() -> (r: FileProperties)
        ensures
            r.filestem@.len() == 0,
            r.full_path@.len() == 0,
            r.extension@.len() == 0,
            r.path@.len() == 0,
            r.folder_path@.len() == 0,
    {
        FileProperties {
            filestem: String::new(),
            full_path: String::new(),
            extension: String::new(),
            path: String::new(),
            folder_path: String::new(),
        }
    }

    /// How a file is shown: its full path.
    pub fn to_display_string(&self) -> (r: String)
        ensures
            r@ == self.full_path@,
    {
        self.full_path.clone()
    }
}

impl ContentReplacer for FileProperties {
    open spec fn pairs(&self) -> Seq<(Seq<char>, Seq<char>)> {
        self.spec_pairs()
    }

    open spec fn identifier(&self) -> Seq<char> {
        self.path@
    }

    fn main_identifier(&self) -> (r: String) {
        self.path.clone()
    }

    fn token_pairs(&self) -> (r: Vec<(String, String)>) {
        let r = vec![
            ("<input-file-full-path>".to_owned(), self.full_path.clone()),
            ("<file-stem>".to_owned(), self.filestem.clone()),
            ("<file-path>".to_owned(), self.path.clone()),
            ("<folder-path>".to_owned(), self.folder_path.clone()),
            ("<file-extension>".to_owned(), self.extension.clone()),
        ];
        assert(pairs_view(r@) =~= self.spec_pairs());
        r
    }
}

/// Each occurrence of a token is replaced: in `a + t + b`, the `t` becomes
/// `v`, and the text around it is treated as it would be alone.
pub proof fn lemma_token_occurrence_replaced(a: Seq<char>, t: Seq<char>, b: Seq<char>, v: Seq<char>)
    requires
        is_token(t),
    ensures
        replace_all(a + t + b, t, v) == replace_all(a, t, v) + v + replace_all(b, t, v),
    decreases a.len(),
{
    let x = a + t + b;
    let n = t.len() as int;
    if a.len() == 0 {
        assert(x =~= t + b);
        assert(x.take(n) =~= t);
        assert(x.skip(n) =~= b);
    } else if a.len() >= n && a.take(n) == t {
        assert(x.take(n) =~= a.take(n));
        assert(x.skip(n) =~= a.skip(n) + t + b);
        lemma_token_occurrence_replaced(a.skip(n), t, b, v);
    } else {
        if x.take(n) == t {
            if a.len() < n {
                let k = a.len() as int;
                assert(x.take(n)[k] == x[k]);
                assert(x[k] == t[0]);
            } else {
                assert(x.take(n) =~= a.take(n));
            }
        }
        assert(x.skip(1) =~= a.skip(1) + t + b);
        lemma_token_occurrence_replaced(a.skip(1), t, b, v);
        if a.len() < n {
            assert(seq![a[0]] + a.skip(1) =~= a);
        } else {
            assert(replace_all(a, t, v) == seq![a[0]] + replace_all(a.skip(1), t, v));
        }
        assert(x[0] == a[0]);
    }
}

/// Text in which none of the declared tokens occurs, such as one holding
/// only unknown `<...>` names, is left as it is.
pub proof fn lemma_unknown_tokens_left_intact(s: Seq<char>, pairs: Seq<(Seq<char>, Seq<char>)>)
    requires
        forall|i: int| 0 <= i < pairs.len() ==> !contains(s, #[trigger] pairs[i].0),
    ensures
        replace_each(s, pairs) == s,
    decreases pairs.len(),
{
    if pairs.len() > 0 {
        let front = pairs.drop_last();
        assert forall|i: int| 0 <= i < front.len() implies !contains(s, #[trigger] front[i].0) by {
            assert(front[i] == pairs[i]);
        }
        lemma_unknown_tokens_left_intact(s, front);
        assert(!contains(s, pairs[pairs.len() - 1].0));
        crate::text::lemma_replace_all_absent(s, pairs.last().0, pairs.last().1);
    }
}

/// Every token that a file or a folder declares has the `<name>` shape, so
/// each of its occurrences is replaced.
pub proof fn lemma_declared_tokens_are_tokens(file: FileProperties, folder: FolderProperties)
    ensures
        forall|i: int| 0 <= i < file.pairs().len() ==> is_token(#[trigger] file.pairs()[i].0),
        forall|i: int| 0 <= i < folder.pairs().len() ==> is_token(#[trigger] folder.pairs()[i].0),
{
    reveal_strlit("<input-file-full-path>");
    reveal_strlit("<file-stem>");
    reveal_strlit("<file-path>");
    reveal_strlit("<folder-path>");
    reveal_strlit("<file-extension>");
    reveal_strlit("<input-folder-full-path>");
    reveal_strlit("<input-folder-path>");
    assert forall|i: int| 0 <= i < file.pairs().len() implies is_token(#[trigger] file.pairs()[i].0) by {
        let t = file.pairs()[i].0;
        assert forall|j: int| 1 <= j < t.len() implies #[trigger] t[j] != '<' by {}
    }
    assert forall|i: int| 0 <= i < folder.pairs().len() implies is_token(#[trigger] folder.pairs()[i].0) by {
        let t = folder.pairs()[i].0;
        assert forall|j: int| 1 <= j < t.len() implies #[trigger] t[j] != '<' by {}
    }
}

} // verus!
