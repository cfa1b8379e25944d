//! The common labels of the configuration: a list of `KEY:value` pairs,
//! separated by `;`, read into pairs with one value for each key.
//!
//! The text is split by regular expressions whose pattern is a lone colon or
//! a lone semicolon. Neither character has a meaning in the syntax of
//! regular expressions, so each pattern matches its character and nothing
//! else, and what a split returns is [`pieces`].

use vstd::prelude::*;
use vstd::string::*;
use crate::text::{join, same_text};

verus! {

/// Declares `regex::Error`, the error with which `regex::Regex::new` turns a
/// pattern down, as a type of which nothing is known.
#[verifier::external_type_specification]
#[verifier::external_body]
pub struct ExRegexError(regex::Error);

/// The stretches of `text` between the occurrences of `separator`, in
/// order. There is one stretch more than there are occurrences: a stretch
/// is empty where two occurrences are neighbours and where one stands at an
/// end of the text, and a text without the separator is one stretch.
pub open spec fn pieces(text: Seq<char>, separator: char) -> Seq<Seq<char>>
    decreases text.len(),
{
    if text.len() == 0 {
        seq![Seq::empty()]
    } else {
        let earlier = pieces(text.drop_last(), separator);
        if text.last() == separator {
            earlier.push(Seq::empty())
        } else {
            earlier.update(earlier.len() - 1, earlier.last().push(text.last()))
        }
    }
}

/// The texts of a list in a row, with `separator` between each two.
pub open spec fn joined(parts: Seq<Seq<char>>, separator: char) -> Seq<char>
    decreases parts.len(),
{
    if parts.len() == 0 {
        Seq::empty()
    } else if parts.len() == 1 {
        parts[0]
    } else {
        joined(parts.drop_last(), separator).push(separator) + parts.last()
    }
}

/// Whether `pattern` is one of the two separators that this library splits
/// at: a lone colon or a lone semicolon.
pub open spec fn is_separator(pattern: Seq<char>) -> bool {
    pattern == seq![':'] || pattern == seq![';']
}

/// Compiles `pattern` with `regex::Regex::new` and splits `haystack` with
/// `regex::Regex::split`, copying each part. The contract speaks of a
/// pattern that is a lone colon or a lone semicolon and of no other. It
/// claims that such a pattern compiles, being a single character without a
/// meaning in the syntax, and that the split then gives the stretches of the
/// haystack between the occurrences of that character, the last one
/// included where it is empty: the matches of such a pattern are the
/// occurrences of its character, and the split gives what lies between the
/// matches and what is left after the last one.
#[verifier::external_body]
fn split(pattern: &str, haystack: &str) -> (parts: Result<Vec<String>, regex::Error>)
    ensures
        is_separator(pattern@) ==> parts is Ok && parts->Ok_0.deep_view() == pieces(
            haystack@,
            pattern@[0],
        ),
{
    let regex = regex::Regex::new(pattern)?;
    Ok(regex.split(haystack).map(String::from).collect())
}

/// A pair of key and value, or the message that says why there is none.
pub type Pair = Result<(Seq<char>, Seq<char>), Seq<char>>;

/// A list of labels, or the message that says why there is none.
pub type Labels = Result<Seq<(Seq<char>, Seq<char>)>, Seq<char>>;

/// The message for a text that is not one key and one value.
pub open spec fn no_separator(input: Seq<char>) -> Seq<char> {
    "invalid KEY:value: no `:` found in `"@ + input + "`"@
}

/// The pair that the parts of `input` make: the two parts where there are
/// exactly two, and an error otherwise.
pub open spec fn pair_of(parts: Seq<Seq<char>>, input: Seq<char>) -> Pair {
    if parts.len() == 2 {
        Ok((parts[0], parts[1]))
    } else {
        Err(no_separator(input))
    }
}

/// The pair that `input` stands for: that of its parts between colons.
pub open spec fn key_value(input: Seq<char>) -> Pair {
    pair_of(pieces(input, ':'), input)
}

/// The content of a parsed pair.
pub open spec fn pair_view(pair: Result<(String, String), String>) -> Pair {
    match pair {
        Ok((key, value)) => Ok((key@, value@)),
        Err(message) => Err(message@),
    }
}

/// The content of a parsed list of labels.
pub open spec fn labels_view(labels: Result<CommonLabels, String>) -> Labels {
    match labels {
        Ok(list) => Ok(list@),
        Err(message) => Err(message@),
    }
}

/// Whether `i` is the first position of `key` in `labels`.
pub open spec fn first_with_key(
    labels: Seq<(Seq<char>, Seq<char>)>,
    key: Seq<char>,
    i: int,
) -> bool {
    &&& 0 <= i < labels.len()
    &&& labels[i].0 == key
    &&& forall|k: int| 0 <= k < i ==> (#[trigger] labels[k]).0 != key
}

/// The labels with `key` set to `value`: in the place of the key's first
/// pair where the key is there, at the end otherwise.
pub open spec fn put(
    labels: Seq<(Seq<char>, Seq<char>)>,
    key: Seq<char>,
    value: Seq<char>,
) -> Seq<(Seq<char>, Seq<char>)> {
    if exists|i: int| first_with_key(labels, key, i) {
        labels.update(choose|i: int| first_with_key(labels, key, i), (key, value))
    } else {
        labels.push((key, value))
    }
}

/// The labels that a list of texts stands for: each text read as a pair, in
/// order, a later value replacing an earlier one of the same key; or the
/// error of the first text that is no pair.
pub open spec fn collect(parts: Seq<Seq<char>>) -> Labels
    decreases parts.len(),
{
    if parts.len() == 0 {
        Ok(seq![])
    } else {
        match collect(parts.drop_last()) {
            Ok(earlier) => match key_value(parts.last()) {
                Ok((key, value)) => Ok(put(earlier, key, value)),
                Err(message) => Err(message),
            },
            Err(message) => Err(message),
        }
    }
}

/// The labels that `value` stands for: those of its parts between
/// semicolons.
pub open spec fn labels_of(value: Seq<char>) -> Labels {
    collect(pieces(value, ';'))
}

/// Whether no key occurs twice.
pub open spec fn unique_keys(labels: Seq<(Seq<char>, Seq<char>)>) -> bool {
    forall|i: int, j: int|
        0 <= i < j < labels.len() ==> (#[trigger] labels[i]).0 != (#[trigger] labels[j]).0
}

/// The mapping from key to value that a list of labels stands for, a later
/// pair replacing an earlier one of the same key.
pub open spec fn as_map(labels: Seq<(Seq<char>, Seq<char>)>) -> Map<Seq<char>, Seq<char>>
    decreases labels.len(),
{
    if labels.len() == 0 {
        Map::empty()
    } else {
        as_map(labels.drop_last()).insert(labels.last().0, labels.last().1)
    }
}

/// The tags that a list of labels stands for: key, colon and value of each.
pub open spec fn tags_of(labels: Seq<(Seq<char>, Seq<char>)>) -> Seq<Seq<char>> {
    Seq::new(labels.len(), |i: int| labels[i].0 + ":"@ + labels[i].1)
}

/// Makes the pair of the parts into which `input` was split.
pub fn pair_from_parts(parts: &Vec<String>, input: &str) -> (pair: Result<
    (String, String),
    String,
>)
    ensures
        pair_view(pair) == pair_of(parts.deep_view(), input@),
{
    if parts.len() == 2 {
        Ok((parts[0].clone(), parts[1].clone()))
    } else {
        let mut message = join("invalid KEY:value: no `:` found in `", input);
        message.append("`");
        Err(message)
    }
}

/// Reads one `KEY:value` pair: the text before and the text after the
/// colon, where the input holds exactly one colon.
pub fn key_value_parser(input: &str) -> (pair: Result<(String, String), String>)
    ensures
        pair_view(pair) == key_value(input@),
{
    proof {
        reveal_strlit(":");
    }
    assert(":"@ =~= seq![':']);
    match split(":", input) {
        Ok(parts) => pair_from_parts(&parts, input),
        Err(_) => unreached(),
    }
}

fn put_pair(labels: &mut Vec<(String, String)>, key: String, value: String)
    ensures
        final(labels).deep_view() == put(old(labels).deep_view(), key@, value@),
{
    let ghost before = labels.deep_view();
    let mut i: usize = 0;
    while i < labels.len()
        invariant
            i <= labels.len(),
            labels.deep_view() == before,
            before == old(labels).deep_view(),
            forall|k: int| 0 <= k < i ==> (#[trigger] before[k]).0 != key@,
        decreases labels.len() - i,
    {
        if same_text(labels[i].0.as_str(), key.as_str()) {
            assert(before[i as int].0 == key@);
            assert(first_with_key(before, key@, i as int));
            let ghost chosen = choose|c: int| first_with_key(before, key@, c);
            assert(chosen == i) by {
                if chosen < i {
                    assert(before[chosen].0 != key@);
                }
                if i < chosen {
                    assert(before[i as int].0 != key@);
                }
            }
            labels.set(i, (key, value));
            assert(labels.deep_view() =~= before.update(i as int, (key@, value@)));
            return ;
        }
        i += 1;
    }
    assert(!exists|c: int| first_with_key(before, key@, c));
    labels.push((key, value));
    assert(labels.deep_view() =~= before.push((key@, value@)));
}

/// The common labels: pairs of key and value in which no key occurs twice.
/// The pairs stand in the order in which their keys were first set.
#[derive(Debug)]
pub struct CommonLabels {
    pairs: Vec<(String, String)>,
}

impl Clone for CommonLabels {
    fn clone(&self) -> (copy: CommonLabels)
        ensures
            copy@ == self@,
    {
        proof {
            use_type_invariant(self);
        }
        let mut pairs: Vec<(String, String)> = Vec::new();
        let mut i: usize = 0;
        while i < self.pairs.len()
            invariant
                i <= self.pairs.len(),
                pairs.len() == i,
                forall|k: int|
                    0 <= k < i ==> (#[trigger] pairs@[k]).0@ == self.pairs@[k].0@ && pairs@[k].1@
                        == self.pairs@[k].1@,
            decreases self.pairs.len() - i,
        {
            pairs.push((self.pairs[i].0.clone(), self.pairs[i].1.clone()));
            i += 1;
        }
        assert(pairs.deep_view() =~= self.pairs.deep_view());
        CommonLabels { pairs }
    }
}

impl View for CommonLabels {
    type V = Seq<(Seq<char>, Seq<char>)>;

    closed spec fn view(&self) -> Seq<(Seq<char>, Seq<char>)> {
        self.pairs.deep_view()
    }
}

impl CommonLabels {
    #[verifier::type_invariant]
    spec fn well_formed(self) -> bool {
        unique_keys(self@)
    }

    /// The mapping from key to value that the labels stand for.
    pub open spec fn map(self) -> Map<Seq<char>, Seq<char>> {
        as_map(self@)
    }

    /// No labels.
    pub fn new() -> (labels: CommonLabels)
        ensures
            labels@ == Seq::<(Seq<char>, Seq<char>)>::empty(),
    {
        let labels = CommonLabels { pairs: Vec::new() };
        assert(labels@ =~= Seq::<(Seq<char>, Seq<char>)>::empty());
        labels
    }

    /// Sets `key` to `value`: in the place of the key's pair where the key
    /// is there, at the end otherwise. The mapping changes at that key
    /// alone.
    pub fn put(&mut self, key: String, value: String)
        ensures
            unique_keys(old(self)@),
            final(self)@ == put(old(self)@, key@, value@),
            final(self).map() == old(self).map().insert(key@, value@),
            unique_keys(final(self)@),
    {
        proof {
            use_type_invariant(&*self);
            lemma_put_is_insert(self@, key@, value@);
        }
        let mut pairs: Vec<(String, String)> = Vec::new();
        assert(pairs.deep_view() =~= Seq::<(Seq<char>, Seq<char>)>::empty());
        core::mem::swap(&mut self.pairs, &mut pairs);
        put_pair(&mut pairs, key, value);
        core::mem::swap(&mut self.pairs, &mut pairs);
    }

    /// The pairs, in order.
    pub fn pairs(&self) -> (pairs: &Vec<(String, String)>)
        ensures
            pairs.deep_view() == self@,
            unique_keys(self@),
    {
        proof {
            use_type_invariant(self);
        }
        &self.pairs
    }

    /// Writes the labels as tags: key, colon and value of each, in order.
    pub fn tags(&self) -> (tags: Vec<String>)
        ensures
            tags.deep_view() == tags_of(self@),
    {
        let mut tags: Vec<String> = Vec::new();
        let mut i: usize = 0;
        while i < self.pairs.len()
            invariant
                i <= self.pairs.len(),
                tags.len() == i,
                forall|k: int|
                    0 <= k < i ==> (#[trigger] tags@[k])@ == self.pairs@[k].0@ + ":"@
                        + self.pairs@[k].1@,
            decreases self.pairs.len() - i,
        {
            let mut tag = join(self.pairs[i].0.as_str(), ":");
            tag.append(self.pairs[i].1.as_str());
            tags.push(tag);
            i += 1;
        }
        assert(tags.deep_view() =~= tags_of(self@));
        tags
    }
}

/// Reads the common labels from the text of a command-line value.
#[derive(Clone, Copy, Debug)]
#[non_exhaustive]
pub struct MapValueParser {}

impl MapValueParser {
    /// The parser.
    pub fn new() -> (parser: MapValueParser) {
        MapValueParser {  }
    }

    /// Reads a list of `KEY:value` pairs separated by `;`. A later value
    /// replaces an earlier one of the same key; the first text that is no
    /// pair is the error.
    pub fn parse_ref(&self, value: &str) -> (labels: Result<CommonLabels, String>)
        ensures
            labels_view(labels) == labels_of(value@),
    {
        proof {
            reveal_strlit(";");
        }
        assert(";"@ =~= seq![';']);
        match split(";", value) {
            Ok(parts) => {
                let mut labels = CommonLabels::new();
                let mut i: usize = 0;
                assert(parts.deep_view().take(0) =~= Seq::<Seq<char>>::empty());
                while i < parts.len()
                    invariant
                        i <= parts.len(),
                        parts.deep_view() == pieces(value@, ';'),
                        collect(parts.deep_view().take(i as int)) == Ok::<
                            Seq<(Seq<char>, Seq<char>)>,
                            Seq<char>,
                        >(labels@),
                    decreases parts.len() - i,
                {
                    proof {
                        let next = parts.deep_view().take(i + 1);
                        assert(next.drop_last() =~= parts.deep_view().take(i as int));
                        assert(next.last() == parts@[i as int]@);
                    }
                    match key_value_parser(parts[i].as_str()) {
                        Ok((key, value)) => {
                            labels.put(key, value);
                        },
                        Err(message) => {
                            proof {
                                assert(collect(parts.deep_view().take(i + 1)) is Err);
                                lemma_error_stays(parts.deep_view(), i + 1);
                            }
                            return Err(message);
                        },
                    }
                    i += 1;
                }
                assert(parts.deep_view().take(parts.len() as int) =~= parts.deep_view());
                Ok(labels)
            },
            Err(_) => unreached(),
        }
    }
}

/// An error among the first `n` texts is the error of the whole list.
pub proof fn lemma_error_stays(parts: Seq<Seq<char>>, n: int)
    requires
        0 <= n <= parts.len(),
        collect(parts.take(n)) is Err,
    ensures
        collect(parts) == collect(parts.take(n)),
    decreases parts.len() - n,
{
    if n < parts.len() {
        let next = parts.take(n + 1);
        assert(next.drop_last() =~= parts.take(n));
        lemma_error_stays(parts, n + 1);
    } else {
        assert(parts.take(n) =~= parts);
    }
}

/// Setting a key keeps the keys of a list unique, and changes the mapping
/// that the list stands for at that key alone.
pub proof fn lemma_put_is_insert(
    labels: Seq<(Seq<char>, Seq<char>)>,
    key: Seq<char>,
    value: Seq<char>,
)
    requires
        unique_keys(labels),
    ensures
        unique_keys(put(labels, key, value)),
        as_map(put(labels, key, value)) == as_map(labels).insert(key, value),
    decreases labels.len(),
{
    if exists|i: int| first_with_key(labels, key, i) {
        let i = choose|i: int| first_with_key(labels, key, i);
        let changed = labels.update(i, (key, value));
        assert(unique_keys(changed)) by {
            assert forall|a: int, b: int| 0 <= a < b < changed.len() implies (
            #[trigger] changed[a]).0 != (#[trigger] changed[b]).0 by {
                assert(changed[a].0 == labels[a].0);
                assert(changed[b].0 == labels[b].0);
            }
        }
        lemma_update_is_insert(labels, i, value);
    } else {
        let longer = labels.push((key, value));
        assert(longer.drop_last() =~= labels);
        assert(unique_keys(longer)) by {
            assert forall|a: int, b: int| 0 <= a < b < longer.len() implies (
            #[trigger] longer[a]).0 != (#[trigger] longer[b]).0 by {
                if b == labels.len() {
                    if labels[a].0 == key {
                        lemma_first_exists(labels, key, a);
                    }
                } else {
                    assert(longer[a] == labels[a]);
                    assert(longer[b] == labels[b]);
                }
            }
        }
    }
}

/// A key that occurs in a list has a first position there.
pub proof fn lemma_first_exists(labels: Seq<(Seq<char>, Seq<char>)>, key: Seq<char>, at: int)
    requires
        0 <= at < labels.len(),
        labels[at].0 == key,
    ensures
        exists|i: int| first_with_key(labels, key, i),
    decreases at,
{
    if exists|k: int| 0 <= k < at && (#[trigger] labels[k]).0 == key {
        let k = choose|k: int| 0 <= k < at && (#[trigger] labels[k]).0 == key;
        lemma_first_exists(labels, key, k);
    } else {
        assert(first_with_key(labels, key, at));
    }
}

/// In a list with unique keys, replacing the value at a position changes
/// the mapping that the list stands for at that position's key alone.
pub proof fn lemma_update_is_insert(labels: Seq<(Seq<char>, Seq<char>)>, i: int, value: Seq<char>)
    requires
        unique_keys(labels),
        0 <= i < labels.len(),
    ensures
        as_map(labels.update(i, (labels[i].0, value))) == as_map(labels).insert(
            labels[i].0,
            value,
        ),
    decreases labels.len(),
{
    let key = labels[i].0;
    let changed = labels.update(i, (key, value));
    let last = labels.len() - 1;
    if i == last {
        assert(changed.drop_last() =~= labels.drop_last());
        assert(as_map(changed) =~= as_map(labels).insert(key, value));
    } else {
        assert(changed.drop_last() =~= labels.drop_last().update(i, (key, value)));
        assert(unique_keys(labels.drop_last())) by {
            assert forall|a: int, b: int| 0 <= a < b < labels.drop_last().len() implies (
            #[trigger] labels.drop_last()[a]).0 != (#[trigger] labels.drop_last()[b]).0 by {
                assert(labels.drop_last()[a] == labels[a]);
                assert(labels.drop_last()[b] == labels[b]);
            }
        }
        assert(labels.drop_last()[i] == labels[i]);
        lemma_update_is_insert(labels.drop_last(), i, value);
        assert(labels[i].0 != labels[last].0);
        assert(changed.last() == labels.last());
        assert(as_map(changed) =~= as_map(labels).insert(key, value));
    }
}

/// The labels read from a list of texts have unique keys.
pub proof fn lemma_collect_unique(parts: Seq<Seq<char>>)
    ensures
        collect(parts) is Ok ==> unique_keys(collect(parts)->Ok_0),
    decreases parts.len(),
{
    if parts.len() > 0 {
        lemma_collect_unique(parts.drop_last());
        if collect(parts) is Ok {
            let earlier = collect(parts.drop_last())->Ok_0;
            let pair = key_value(parts.last())->Ok_0;
            lemma_put_is_insert(earlier, pair.0, pair.1);
        }
    }
}

/// The stretches of a text, put together again with the separator between
/// them, are the text; there is at least one stretch, and none holds the
/// separator. So the stretches are the one way to cut the text at every
/// occurrence of the separator and nowhere else.
pub proof fn lemma_pieces_join(text: Seq<char>, separator: char)
    ensures
        pieces(text, separator).len() >= 1,
        joined(pieces(text, separator), separator) == text,
        forall|k: int|
            0 <= k < pieces(text, separator).len() ==> !(#[trigger] pieces(
                text,
                separator,
            )[k]).contains(separator),
    decreases text.len(),
{
    let parts = pieces(text, separator);
    if text.len() == 0 {
        assert(joined(parts, separator) =~= text);
    } else {
        let earlier = pieces(text.drop_last(), separator);
        lemma_pieces_join(text.drop_last(), separator);
        if text.last() == separator {
            assert(parts.drop_last() =~= earlier);
            assert(joined(parts, separator) =~= text);
        } else {
            let grown = earlier.last().push(text.last());
            if earlier.len() > 1 {
                assert(parts.drop_last() =~= earlier.drop_last());
            }
            assert(joined(parts, separator) =~= joined(earlier, separator).push(text.last()));
            assert(joined(parts, separator) =~= text);
            assert forall|k: int| 0 <= k < parts.len() implies !(#[trigger] parts[k]).contains(
                separator,
            ) by {
                if k == parts.len() - 1 {
                    if grown.contains(separator) {
                        let at = choose|at: int| 0 <= at < grown.len() && grown[at] == separator;
                        if at < earlier.last().len() {
                            assert(earlier.last()[at] == separator);
                            assert(earlier.last().contains(separator));
                            assert(!earlier[earlier.len() - 1].contains(separator));
                        }
                    }
                } else {
                    assert(parts[k] == earlier[k]);
                }
            }
        }
    }
}

/// A text without the separator is one stretch.
pub proof fn lemma_plain_text_is_one_piece(text: Seq<char>, separator: char)
    requires
        !text.contains(separator),
    ensures
        pieces(text, separator) == seq![text],
    decreases text.len(),
{
    if text.len() == 0 {
        assert(text =~= Seq::<char>::empty());
    } else {
        let shorter = text.drop_last();
        assert(!shorter.contains(separator)) by {
            if shorter.contains(separator) {
                let at = choose|at: int| 0 <= at < shorter.len() && shorter[at] == separator;
                assert(text[at] == separator);
            }
        }
        assert(text.last() != separator) by {
            if text.last() == separator {
                assert(text[text.len() - 1] == separator);
                assert(text.contains(separator));
            }
        }
        lemma_plain_text_is_one_piece(shorter, separator);
        let earlier = pieces(shorter, separator);
        assert(earlier.last() == shorter);
        assert(shorter.push(text.last()) =~= text);
        assert(earlier.update(0, text) =~= seq![text]);
    }
}

/// The stretches of two texts with the separator between them are the
/// stretches of the first followed by the stretches of the second.
pub proof fn lemma_pieces_concat(front: Seq<char>, back: Seq<char>, separator: char)
    ensures
        pieces(front.push(separator) + back, separator) == pieces(front, separator) + pieces(
            back,
            separator,
        ),
    decreases back.len(),
{
    let whole = front.push(separator) + back;
    let first = pieces(front, separator);
    lemma_pieces_join(front, separator);
    lemma_pieces_join(back, separator);
    if back.len() == 0 {
        assert(whole =~= front.push(separator));
        assert(whole.drop_last() =~= front);
        assert(pieces(whole, separator) =~= first + pieces(back, separator));
    } else {
        assert(whole.drop_last() =~= front.push(separator) + back.drop_last());
        assert(whole.last() == back.last());
        lemma_pieces_concat(front, back.drop_last(), separator);
        lemma_pieces_join(back.drop_last(), separator);
        assert(pieces(whole, separator) =~= first + pieces(back, separator));
    }
}

/// A key and a value that hold no colon, written with a colon between
/// them, are read back as that key and that value.
pub proof fn lemma_pair_reads_back(key: Seq<char>, value: Seq<char>)
    requires
        !key.contains(':'),
        !value.contains(':'),
    ensures
        key_value(key.push(':') + value) == Ok::<(Seq<char>, Seq<char>), Seq<char>>(
            (key, value),
        ),
{
    lemma_pieces_concat(key, value, ':');
    lemma_plain_text_is_one_piece(key, ':');
    lemma_plain_text_is_one_piece(value, ':');
    assert(pieces(key.push(':') + value, ':') =~= seq![key, value]);
}

/// A text without a colon is no pair.
pub proof fn lemma_text_without_colon_is_no_pair(input: Seq<char>)
    requires
        !input.contains(':'),
    ensures
        key_value(input) == Err::<(Seq<char>, Seq<char>), Seq<char>>(no_separator(input)),
{
    lemma_plain_text_is_one_piece(input, ':');
}

} // verus!
