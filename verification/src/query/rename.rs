//! Renaming the placeholders of a fragment, in its list and in its text.

use crate::query::ir::{
    all_bound_values, bindings, bound_condition, bound_values, combined_sql, joined,
    lemma_placeholder_names_distinct, named, placeholder_names, range_bounds, range_condition,
    sql_with, where_bindings, where_sql, FilterExpr, SqlFragment,
};
use crate::text::{
    decimal, lemma_decimal_digits, numbered_names, numbered_placeholder, placeholder_name,
};
use crate::value::{StoreValue, StoreValueView};
use std::marker::PhantomData;
use vstd::prelude::*;

verus! {

/// Whether a placeholder's name begins with this character: one of the four
/// marks `?`, `:`, `@` and `$`.
pub open spec fn starts_placeholder(c: char) -> bool {
    c == '?' || c == ':' || c == '@' || c == '$'
}

/// Whether a placeholder's name goes on with this character: a digit, a
/// letter of the Latin alphabet or an underscore.
pub open spec fn continues_placeholder(c: char) -> bool {
    ('0' <= c && c <= '9') || ('a' <= c && c <= 'z') || ('A' <= c && c <= 'Z') || c == '_'
}

/// Whether the character can stand in a name: it begins a placeholder's name
/// or goes on with one.
pub open spec fn in_name(c: char) -> bool {
    starts_placeholder(c) || continues_placeholder(c)
}

/// What a placeholder becomes: the new name in the place of the old one, and
/// itself where it is none of the old names. Where the name stands more than
/// once among the old names, its last place counts.
pub open spec fn renamed_token(
    token: Seq<char>,
    old_names: Seq<Seq<char>>,
    new_names: Seq<Seq<char>>,
) -> Seq<char>
    decreases old_names.len(),
{
    if old_names.len() == 0 {
        token
    } else if old_names.last() == token {
        new_names[old_names.len() - 1]
    } else {
        renamed_token(token, old_names.drop_last(), new_names)
    }
}

/// Whether `name` stands as a whole name at the beginning of `text`, where
/// `inside` says whether the character before `text` can stand in a name.
/// The text begins with the name, whatever its characters are, and the name
/// is no part of a longer one: where it ends with a character of names, no
/// digit, letter or underscore follows it, and where it begins with a digit,
/// a letter or an underscore, no character of names stands before it. So
/// `:1` stands whole in `:1)` and not in `:10`, and `x` in `= x` and not in
/// `:x` or `ax`.
pub open spec fn stands_whole(text: Seq<char>, inside: bool, name: Seq<char>) -> bool {
    &&& 0 < name.len() <= text.len()
    &&& text.take(name.len() as int) == name
    &&& !(inside && continues_placeholder(name[0]))
    &&& !(name.len() < text.len() && in_name(name.last()) && continues_placeholder(
        text[name.len() as int],
    ))
}

/// The place among `old_names` of the name that stands whole at the
/// beginning of `text`: where more than one does, the last of them.
pub open spec fn found_at(text: Seq<char>, inside: bool, old_names: Seq<Seq<char>>) -> Option<int>
    decreases old_names.len(),
{
    if old_names.len() == 0 {
        None
    } else if stands_whole(text, inside, old_names.last()) {
        Some(old_names.len() - 1)
    } else {
        found_at(text, inside, old_names.drop_last())
    }
}

/// The text renamed from its beginning, where `inside` says whether the
/// character before it can stand in a name. Where one of the old names
/// stands whole, the new name in its place is written and the reading goes
/// on behind the old name; any other character is written as it is. What
/// was written is not read again.
pub open spec fn renamed_from(
    text: Seq<char>,
    inside: bool,
    old_names: Seq<Seq<char>>,
    new_names: Seq<Seq<char>>,
) -> Seq<char>
    decreases text.len(),
{
    let found = found_at(text, inside, old_names);
    if text.len() == 0 {
        Seq::empty()
    } else if found is Some && 0 < old_names[found->0].len() <= text.len() {
        let name = old_names[found->0];
        new_names[found->0] + renamed_from(
            text.skip(name.len() as int),
            in_name(name.last()),
            old_names,
            new_names,
        )
    } else {
        seq![text[0]] + renamed_from(text.skip(1), in_name(text[0]), old_names, new_names)
    }
}

/// The text with every one of the old names, where it stands as a whole
/// name, replaced by the new name in its place. The first character of a
/// name does not matter: `?1`, `:name`, `@p`, `$2` and a bare `x` are renamed
/// alike.
pub open spec fn renamed_sql(
    sql: Seq<char>,
    old_names: Seq<Seq<char>>,
    new_names: Seq<Seq<char>>,
) -> Seq<char> {
    renamed_from(sql, false, old_names, new_names)
}

/// A name that is found is one of the old names and stands whole, and none
/// behind it in the list does; where none is found, none stands whole.
pub proof fn lemma_found(text: Seq<char>, inside: bool, old_names: Seq<Seq<char>>)
    ensures
        match found_at(text, inside, old_names) {
            Some(k) => {
                &&& 0 <= k < old_names.len()
                &&& stands_whole(text, inside, old_names[k])
                &&& forall|j: int|
                    k < j < old_names.len() ==> !stands_whole(text, inside, #[trigger] old_names[j])
            },
            None => forall|j: int|
                0 <= j < old_names.len() ==> !stands_whole(text, inside, #[trigger] old_names[j]),
        },
    decreases old_names.len(),
{
    if old_names.len() > 0 && !stands_whole(text, inside, old_names.last()) {
        let front = old_names.drop_last();
        lemma_found(text, inside, front);
        assert forall|j: int| 0 <= j < front.len() implies front[j] == old_names[j] by {}
        match found_at(text, inside, front) {
            Some(k) => {
                assert(old_names[k] == front[k]);
                assert forall|j: int| k < j < old_names.len() implies !stands_whole(
                    text,
                    inside,
                    #[trigger] old_names[j],
                ) by {
                    if j < front.len() {
                        assert(front[j] == old_names[j]);
                    }
                }
            },
            None => {
                assert forall|j: int| 0 <= j < old_names.len() implies !stands_whole(
                    text,
                    inside,
                    #[trigger] old_names[j],
                ) by {
                    if j < front.len() {
                        assert(front[j] == old_names[j]);
                    }
                }
            },
        }
    }
}

/// The names of a list of placeholders.
pub open spec fn names_of(placeholders: Seq<(Seq<char>, StoreValueView)>) -> Seq<Seq<char>> {
    Seq::new(placeholders.len(), |i: int| placeholders[i].0)
}

/// Whether no two names are the same.
pub open spec fn distinct(names: Seq<Seq<char>>) -> bool {
    forall|i: int, j: int| 0 <= i < j < names.len() ==> names[i] != names[j]
}

/// `String::push`: appends one character.
#[verifier::external_body]
fn push_char(text: &mut String, c: char)
    ensures
        final(text)@ == old(text)@.push(c),
{
    text.push(c)
}

/// Whether a placeholder's name goes on with `c`.
fn is_continuation(c: char) -> (continuation: bool)
    ensures
        continuation == continues_placeholder(c),
{
    ('0' <= c && c <= '9') || ('a' <= c && c <= 'z') || ('A' <= c && c <= 'Z') || c == '_'
}

/// Whether `c` can stand in a name.
fn is_in_name(c: char) -> (inside: bool)
    ensures
        inside == in_name(c),
{
    c == '?' || c == ':' || c == '@' || c == '$' || is_continuation(c)
}

/// The names that a list of renamings takes away, in order.
pub open spec fn old_names_of(renames: Seq<(String, String)>) -> Seq<Seq<char>> {
    Seq::new(renames.len(), |i: int| renames[i].0@)
}

/// The names that a list of renamings gives, in order.
pub open spec fn new_names_of(renames: Seq<(String, String)>) -> Seq<Seq<char>> {
    Seq::new(renames.len(), |i: int| renames[i].1@)
}

/// Appends to `out` what the placeholder `token` becomes.
fn flush(out: &mut String, token: &String, renames: &Vec<(String, String)>)
    ensures
        final(out)@ == old(out)@ + renamed_token(
            token@,
            old_names_of(renames@),
            new_names_of(renames@),
        ),
{
    let ghost olds = old_names_of(renames@);
    let ghost news = new_names_of(renames@);
    let mut i: usize = renames.len();
    assert(olds.take(i as int) =~= olds);
    while i > 0
        invariant
            0 <= i <= renames@.len(),
            olds == old_names_of(renames@),
            news == new_names_of(renames@),
            renamed_token(token@, olds, news) == renamed_token(token@, olds.take(i as int), news),
            out@ == old(out)@,
        decreases i,
    {
        i -= 1;
        proof {
            assert(olds.take(i + 1).drop_last() =~= olds.take(i as int));
            assert(olds.take(i + 1).last() == olds[i as int]);
        }
        if renames[i].0 == *token {
            out.append(renames[i].1.as_str());
            return ;
        }
    }
    out.append(token.as_str());
}

/// The characters of a text, one by one.
fn chars_of(text: &str) -> (chars: Vec<char>)
    ensures
        chars@ == text@,
{
    let mut chars: Vec<char> = Vec::new();
    for c in iter: text.chars()
        invariant
            iter.seq() == text@,
            chars@ == text@.take(iter.index() as int),
    {
        chars.push(c);
        assert(chars@ =~= text@.take(iter.index() + 1));
    }
    assert(chars@ =~= text@);
    chars
}

/// The texts of a list of names, in order.
pub open spec fn texts_of(names: Seq<Vec<char>>) -> Seq<Seq<char>> {
    Seq::new(names.len(), |i: int| names[i]@)
}

/// The characters of the names that a list of renamings takes away.
fn old_names(renames: &Vec<(String, String)>) -> (names: Vec<Vec<char>>)
    ensures
        texts_of(names@) == old_names_of(renames@),
{
    let mut names: Vec<Vec<char>> = Vec::new();
    let mut i: usize = 0;
    while i < renames.len()
        invariant
            0 <= i <= renames@.len(),
            names@.len() == i,
            forall|j: int| 0 <= j < i ==> (#[trigger] names@[j])@ == renames@[j].0@,
        decreases renames@.len() - i,
    {
        names.push(chars_of(renames[i].0.as_str()));
        i += 1;
    }
    assert(texts_of(names@) =~= old_names_of(renames@));
    names
}

/// Whether `name` stands as a whole name in `text` at the place `at`.
fn stands_at(text: &Vec<char>, at: usize, inside: bool, name: &Vec<char>) -> (whole: bool)
    requires
        at <= text@.len(),
    ensures
        whole == stands_whole(text@.skip(at as int), inside, name@),
{
    let ghost rest = text@.skip(at as int);
    let n: usize = name.len();
    if n == 0 || n > text.len() - at {
        return false;
    }
    if inside && is_continuation(name[0]) {
        return false;
    }
    if n < text.len() - at && is_in_name(name[n - 1]) && is_continuation(text[at + n]) {
        assert(rest[n as int] == text@[at + n]);
        return false;
    }
    let mut j: usize = 0;
    while j < n
        invariant
            0 <= j <= n,
            n == name@.len(),
            at + n <= text@.len() <= usize::MAX,
            rest == text@.skip(at as int),
            forall|i: int| 0 <= i < j ==> text@[at + i] == #[trigger] name@[i],
        decreases n - j,
    {
        if text[at + j] != name[j] {
            assert(rest.take(n as int)[j as int] == text@[at + j]);
            return false;
        }
        j += 1;
    }
    assert(rest.take(n as int) =~= name@);
    if n < text.len() - at {
        assert(rest[n as int] == text@[at + n]);
    }
    true
}

/// The place of the name that stands whole in `text` at the place `at`.
fn find(text: &Vec<char>, at: usize, inside: bool, names: &Vec<Vec<char>>) -> (found: Option<usize>)
    requires
        at <= text@.len(),
    ensures
        match found {
            Some(k) => found_at(text@.skip(at as int), inside, texts_of(names@)) == Some(k as int),
            None => found_at(text@.skip(at as int), inside, texts_of(names@)) is None,
        },
{
    let ghost rest = text@.skip(at as int);
    let ghost all = texts_of(names@);
    let mut i: usize = names.len();
    assert(all.take(i as int) =~= all);
    while i > 0
        invariant
            0 <= i <= names@.len(),
            at <= text@.len(),
            rest == text@.skip(at as int),
            all == texts_of(names@),
            found_at(rest, inside, all) == found_at(rest, inside, all.take(i as int)),
        decreases i,
    {
        i -= 1;
        proof {
            assert(all.take(i + 1).drop_last() =~= all.take(i as int));
            assert(all.take(i + 1).last() == names@[i as int]@);
        }
        if stands_at(text, at, inside, &names[i]) {
            return Some(i);
        }
    }
    None
}

/// The text `sql` renamed: wherever the first of a pair of `renames` stands
/// as a whole name, whatever character it begins with, the second of that
/// pair is written in its place, and all other text stays. The renaming is
/// simultaneous: what a name has become is not renamed again, so that two
/// names can change places.
pub fn rename_text(sql: &str, renames: &Vec<(String, String)>) -> (out: String)
    ensures
        out@ == renamed_sql(sql@, old_names_of(renames@), new_names_of(renames@)),
{
    let ghost olds = old_names_of(renames@);
    let ghost news = new_names_of(renames@);
    let text = chars_of(sql);
    let names = old_names(renames);
    let mut out = String::new();
    let mut at: usize = 0;
    let mut inside = false;
    proof {
        assert(text@.skip(0) =~= sql@);
        assert(out@ + renamed_from(sql@, false, olds, news) =~= renamed_sql(sql@, olds, news));
    }
    while at < text.len()
        invariant
            0 <= at <= text@.len(),
            text@ == sql@,
            names@.len() == renames@.len(),
            texts_of(names@) == olds,
            olds == old_names_of(renames@),
            news == new_names_of(renames@),
            out@ + renamed_from(text@.skip(at as int), inside, olds, news) == renamed_sql(
                sql@,
                olds,
                news,
            ),
        decreases text@.len() - at,
    {
        let ghost rest = text@.skip(at as int);
        let ghost before = out@;
        proof {
            lemma_found(rest, inside, olds);
        }
        match find(&text, at, inside, &names) {
            Some(k) => {
                let name = &names[k];
                assert(name@ == olds[k as int]);
                out.append(renames[k].1.as_str());
                inside = is_in_name(name[name.len() - 1]);
                at += name.len();
                proof {
                    assert(rest.skip(name@.len() as int) =~= text@.skip(at as int));
                    assert(before + (news[k as int] + renamed_from(
                        text@.skip(at as int),
                        inside,
                        olds,
                        news,
                    )) =~= out@ + renamed_from(text@.skip(at as int), inside, olds, news));
                }
            },
            None => {
                let c = text[at];
                push_char(&mut out, c);
                inside = is_in_name(c);
                at += 1;
                proof {
                    assert(rest[0] == c);
                    assert(rest.skip(1) =~= text@.skip(at as int));
                    assert(before + (seq![c] + renamed_from(
                        text@.skip(at as int),
                        inside,
                        olds,
                        news,
                    )) =~= out@ + renamed_from(text@.skip(at as int), inside, olds, news));
                }
            },
        }
    }
    proof {
        assert(out@ + Seq::<char>::empty() =~= out@);
    }
    out
}

impl<T> SqlFragment<T> {
    /// The names of the fragment's placeholders, in order.
    pub open spec fn names(&self) -> Seq<Seq<char>> {
        names_of(self.bindings())
    }

    /// The fragment with its placeholders renamed, in the list and in the
    /// text: each that is one of `old_names` takes the one of `new_names` in
    /// its place, and the values stay with their placeholders.
    pub open spec fn renamed_by(
        &self,
        old_names: Seq<Seq<char>>,
        new_names: Seq<Seq<char>>,
    ) -> (Seq<char>, Seq<(Seq<char>, StoreValueView)>) {
        (
            renamed_sql(self.sql@, old_names, new_names),
            Seq::new(
                self.placeholders@.len(),
                |i: int|
                    (renamed_token(self.names()[i], old_names, new_names), self.bindings()[i].1),
            ),
        )
    }

    /// The fragment that `rename_identifier` makes of this one when
    /// `last_placeholder` placeholders are numbered already: the `i`-th
    /// placeholder is assigned the number `last_placeholder + i + 1`, and both
    /// the list and the text take the assigned names.
    pub open spec fn renamed(
        &self,
        last_placeholder: nat,
    ) -> (Seq<char>, Seq<(Seq<char>, StoreValueView)>) {
        self.renamed_by(
            self.names(),
            numbered_names(last_placeholder, self.placeholders@.len()),
        )
    }

    /// Renames the placeholders of the fragment, in the list and in the
    /// text: a placeholder that is the first of a pair of `renames` takes the
    /// second of that pair as its name, and any other keeps its name. In the
    /// text a name is renamed wherever it stands as a whole name, whatever
    /// character it begins with. The renaming is simultaneous, so that two
    /// names can change places; where a name is the first of more than one
    /// pair, the last of them counts.
    pub fn rename_by(self, renames: &Vec<(String, String)>) -> (renamed: Self)
        ensures
            (renamed.sql@, renamed.bindings()) == self.renamed_by(
                old_names_of(renames@),
                new_names_of(renames@),
            ),
    {
        let ghost olds = old_names_of(renames@);
        let ghost news = new_names_of(renames@);
        let ghost names = self.names();
        let sql = rename_text(self.sql.as_str(), renames);
        let ghost all = self.placeholders@;
        let mut placeholders: Vec<(String, StoreValue)> = Vec::new();
        for placeholder in iter: self.placeholders
            invariant
                iter.seq() == all,
                olds == old_names_of(renames@),
                news == new_names_of(renames@),
                names == names_of(bindings(all)),
                placeholders@.len() == iter.index(),
                forall|j: int|
                    0 <= j < iter.index() ==> (#[trigger] placeholders@[j]).0@ == renamed_token(
                        names[j],
                        olds,
                        news,
                    ) && placeholders@[j].1@ == all[j].1@,
        {
            let (name, value) = placeholder;
            let mut renamed = String::new();
            flush(&mut renamed, &name, renames);
            assert(renamed@ =~= renamed_token(name@, olds, news));
            placeholders.push((renamed, value));
        }
        let renamed = SqlFragment { kind: PhantomData, sql, placeholders };
        assert(renamed.bindings() =~= self.renamed_by(olds, news).1);
        renamed
    }

    /// Gives the placeholders of the fragment the numbers that follow
    /// `last_placeholder`, in the list and in the text, and counts them. A
    /// name of the list is renamed in the text wherever it stands as a whole
    /// name, whether it begins with `?`, `:`, `@`, `$` or a letter.
    pub fn rename_identifier(self, last_placeholder: &mut u128) -> (renamed: Self)
        requires
            *old(last_placeholder) + self.placeholders@.len() <= u128::MAX,
        ensures
            *final(last_placeholder) == *old(last_placeholder) + self.placeholders@.len(),
            (renamed.sql@, renamed.bindings()) == self.renamed(*old(last_placeholder) as nat),
    {
        let ghost first = *old(last_placeholder) as nat;
        let ghost assigned = numbered_names(first, self.placeholders@.len());
        let ghost names = self.names();
        let mut renames: Vec<(String, String)> = Vec::new();
        let mut i: usize = 0;
        while i < self.placeholders.len()
            invariant
                0 <= i <= self.placeholders@.len(),
                *old(last_placeholder) + self.placeholders@.len() <= u128::MAX,
                *last_placeholder == *old(last_placeholder) + i,
                first == *old(last_placeholder),
                renames@.len() == i,
                names == self.names(),
                forall|j: int| 0 <= j < i ==> (#[trigger] renames@[j]).0@ == names[j],
                forall|j: int|
                    0 <= j < i ==> (#[trigger] renames@[j]).1@ == placeholder_name(
                        (first + j + 1) as nat,
                    ),
            decreases self.placeholders@.len() - i,
        {
            *last_placeholder = *last_placeholder + 1;
            renames.push(
                (self.placeholders[i].0.clone(), numbered_placeholder(*last_placeholder)),
            );
            i += 1;
        }
        proof {
            assert(old_names_of(renames@) =~= names);
            assert(new_names_of(renames@) =~= assigned);
        }
        self.rename_by(&renames)
    }
}

/// Whether no placeholder begins in the text.
pub open spec fn plain(text: Seq<char>) -> bool {
    plain_to(text, text.len())
}

/// Whether no placeholder begins among the first `end` characters.
pub open spec fn plain_to(text: Seq<char>, end: nat) -> bool
    decreases end,
{
    end == 0 || (!starts_placeholder(text[end - 1]) && plain_to(text, (end - 1) as nat))
}

/// Whether the text is the name of a placeholder: one of the marks `?`, `:`,
/// `@` and `$`, and then nothing but digits, letters and underscores.
pub open spec fn is_placeholder(name: Seq<char>) -> bool {
    &&& name.len() >= 1
    &&& starts_placeholder(name[0])
    &&& forall|i: int| 1 <= i < name.len() ==> continues_placeholder(#[trigger] name[i])
}

/// Whether every name is the name of a placeholder.
pub open spec fn all_placeholders(names: Seq<Seq<char>>) -> bool {
    forall|i: int| 0 <= i < names.len() ==> is_placeholder(#[trigger] names[i])
}

/// Whether a placeholder that stands before the text ends there: the text
/// is empty or begins with a character that no placeholder goes on with.
pub open spec fn ends_placeholder(rest: Seq<char>) -> bool {
    rest.len() == 0 || !continues_placeholder(rest[0])
}

/// No placeholder begins at any place of a plain text.
proof fn lemma_plain_at(text: Seq<char>, end: nat, i: int)
    requires
        plain_to(text, end),
        0 <= i < end,
    ensures
        !starts_placeholder(text[i]),
    decreases end,
{
    if i < end - 1 {
        lemma_plain_at(text, (end - 1) as nat, i);
    }
}

/// A plain text without its first character is plain.
proof fn lemma_plain_skip(text: Seq<char>, end: nat)
    requires
        plain_to(text, end),
        1 <= end <= text.len(),
    ensures
        plain_to(text.skip(1), (end - 1) as nat),
    decreases end,
{
    if end > 1 {
        lemma_plain_skip(text, (end - 1) as nat);
        assert(text.skip(1)[end - 2] == text[end - 1]);
    }
}

/// All but the last of a list of placeholders are placeholders.
proof fn lemma_front_placeholders(names: Seq<Seq<char>>)
    requires
        all_placeholders(names),
        names.len() > 0,
    ensures
        all_placeholders(names.drop_last()),
        is_placeholder(names.last()),
{
    let front = names.drop_last();
    assert forall|i: int| 0 <= i < front.len() implies is_placeholder(#[trigger] front[i]) by {
        assert(front[i] == names[i]);
    }
}

/// Where only placeholders are renamed, nothing is found at a character
/// that begins none.
proof fn lemma_nothing_found(text: Seq<char>, inside: bool, old_names: Seq<Seq<char>>)
    requires
        all_placeholders(old_names),
        text.len() > 0,
        !starts_placeholder(text[0]),
    ensures
        found_at(text, inside, old_names) is None,
    decreases old_names.len(),
{
    if old_names.len() > 0 {
        lemma_front_placeholders(old_names);
        let name = old_names.last();
        if stands_whole(text, inside, name) {
            assert(text.take(name.len() as int)[0] == text[0]);
        }
        lemma_nothing_found(text, inside, old_names.drop_last());
    }
}

/// Where only placeholders are renamed, what is found does not depend on
/// the character before the text.
proof fn lemma_found_anywhere(text: Seq<char>, one: bool, other: bool, old_names: Seq<Seq<char>>)
    requires
        all_placeholders(old_names),
    ensures
        found_at(text, one, old_names) == found_at(text, other, old_names),
    decreases old_names.len(),
{
    if old_names.len() > 0 {
        lemma_front_placeholders(old_names);
        lemma_found_anywhere(text, one, other, old_names.drop_last());
    }
}

/// Where only placeholders are renamed, the renamed text does not depend on
/// the character before it.
proof fn lemma_renamed_anywhere(
    text: Seq<char>,
    one: bool,
    other: bool,
    old_names: Seq<Seq<char>>,
    new_names: Seq<Seq<char>>,
)
    requires
        all_placeholders(old_names),
    ensures
        renamed_from(text, one, old_names, new_names) == renamed_from(
            text,
            other,
            old_names,
            new_names,
        ),
{
    lemma_found_anywhere(text, one, other, old_names);
}

/// A plain text stays as it is, and what follows is renamed by itself.
proof fn lemma_renamed_plain(
    piece: Seq<char>,
    rest: Seq<char>,
    old_names: Seq<Seq<char>>,
    new_names: Seq<Seq<char>>,
)
    requires
        plain(piece),
        all_placeholders(old_names),
    ensures
        renamed_from(piece + rest, false, old_names, new_names) == piece + renamed_from(
            rest,
            false,
            old_names,
            new_names,
        ),
    decreases piece.len(),
{
    if piece.len() == 0 {
        assert(piece + rest =~= rest);
        assert(piece + renamed_from(rest, false, old_names, new_names) =~= renamed_from(
            rest,
            false,
            old_names,
            new_names,
        ));
    } else {
        let text = piece + rest;
        let tail = piece.skip(1);
        assert(text[0] == piece[0]);
        lemma_plain_at(piece, piece.len(), 0);
        lemma_nothing_found(text, false, old_names);
        assert(text.skip(1) =~= tail + rest);
        assert(plain(tail)) by {
            lemma_plain_skip(piece, piece.len());
        }
        lemma_renamed_plain(tail, rest, old_names, new_names);
        lemma_renamed_anywhere(tail + rest, in_name(text[0]), false, old_names, new_names);
        assert(seq![piece[0]] + (tail + renamed_from(rest, false, old_names, new_names)) =~= piece
            + renamed_from(rest, false, old_names, new_names));
    }
}

/// Where a placeholder stands and ends, no other placeholder stands whole.
proof fn lemma_only_itself(name: Seq<char>, rest: Seq<char>, inside: bool, other: Seq<char>)
    requires
        is_placeholder(name),
        ends_placeholder(rest),
        is_placeholder(other),
    ensures
        stands_whole(name + rest, inside, other) <==> other == name,
{
    let text = name + rest;
    let n = other.len() as int;
    if other == name {
        assert(text.take(n) =~= name);
        if n < text.len() {
            assert(text[n] == rest[0]);
        }
    } else if stands_whole(text, inside, other) {
        assert(forall|i: int| 0 <= i < n ==> text.take(n)[i] == text[i]);
        if n < name.len() {
            assert(text[n] == name[n]);
            assert(in_name(other.last()));
        } else if n == name.len() {
            assert(text.take(n) =~= name);
        } else {
            assert(other[name.len() as int] == text.take(n)[name.len() as int]);
            assert(text[name.len() as int] == rest[0]);
        }
    }
}

/// Whether `name` is the only one of `old_names` that stands whole at the
/// beginning of `text`.
pub open spec fn stands_alone(
    text: Seq<char>,
    inside: bool,
    name: Seq<char>,
    old_names: Seq<Seq<char>>,
) -> bool {
    forall|j: int|
        0 <= j < old_names.len() ==> (stands_whole(text, inside, #[trigger] old_names[j])
            <==> old_names[j] == name)
}

/// Where `name` is the only old name that stands whole, what is found is
/// its last place in the list, and nothing where it is not in the list.
proof fn lemma_found_name(
    text: Seq<char>,
    inside: bool,
    name: Seq<char>,
    old_names: Seq<Seq<char>>,
    new_names: Seq<Seq<char>>,
)
    requires
        stands_alone(text, inside, name, old_names),
    ensures
        match found_at(text, inside, old_names) {
            Some(k) => {
                &&& 0 <= k < old_names.len()
                &&& old_names[k] == name
                &&& renamed_token(name, old_names, new_names) == new_names[k]
            },
            None => !old_names.contains(name) && renamed_token(name, old_names, new_names) == name,
        },
    decreases old_names.len(),
{
    if old_names.len() > 0 {
        let front = old_names.drop_last();
        assert(old_names.last() == old_names[old_names.len() - 1]);
        if old_names.last() != name {
            assert forall|j: int| 0 <= j < front.len() implies (stands_whole(
                text,
                inside,
                #[trigger] front[j],
            ) <==> front[j] == name) by {
                assert(front[j] == old_names[j]);
            }
            lemma_found_name(text, inside, name, front, new_names);
            match found_at(text, inside, front) {
                Some(k) => {
                    assert(front[k] == old_names[k]);
                },
                None => {
                    assert forall|j: int| 0 <= j < old_names.len() implies old_names[j]
                        != name by {
                        if j < front.len() {
                            assert(front[j] == old_names[j]);
                        }
                    }
                },
            }
        }
    }
}

/// Every name of the list is renamed in the text as it is in the list,
/// whatever character it begins with: where it stands whole, and no other
/// name of the list does, the text goes on with the name that the list
/// gives it, and then with what follows the name, renamed.
pub proof fn lemma_listed_name_is_renamed(
    text: Seq<char>,
    inside: bool,
    name: Seq<char>,
    old_names: Seq<Seq<char>>,
    new_names: Seq<Seq<char>>,
)
    requires
        old_names.contains(name),
        stands_whole(text, inside, name),
        stands_alone(text, inside, name, old_names),
    ensures
        renamed_from(text, inside, old_names, new_names) == renamed_token(
            name,
            old_names,
            new_names,
        ) + renamed_from(
            text.skip(name.len() as int),
            in_name(name.last()),
            old_names,
            new_names,
        ),
{
    lemma_found_name(text, inside, name, old_names, new_names);
}

/// A text at whose beginning no name of the list stands whole keeps its
/// first character, and what follows is renamed.
pub proof fn lemma_other_text_stays(
    text: Seq<char>,
    inside: bool,
    old_names: Seq<Seq<char>>,
    new_names: Seq<Seq<char>>,
)
    requires
        text.len() > 0,
        forall|j: int|
            0 <= j < old_names.len() ==> !stands_whole(text, inside, #[trigger] old_names[j]),
    ensures
        renamed_from(text, inside, old_names, new_names) == seq![text[0]] + renamed_from(
            text.skip(1),
            in_name(text[0]),
            old_names,
            new_names,
        ),
{
    lemma_found(text, inside, old_names);
}

/// Where a placeholder stands and ends, the name that is found is the
/// placeholder itself, at its last place in the list.
proof fn lemma_found_placeholder(
    name: Seq<char>,
    rest: Seq<char>,
    inside: bool,
    old_names: Seq<Seq<char>>,
    new_names: Seq<Seq<char>>,
)
    requires
        is_placeholder(name),
        ends_placeholder(rest),
        all_placeholders(old_names),
    ensures
        match found_at(name + rest, inside, old_names) {
            Some(k) => {
                &&& 0 <= k < old_names.len()
                &&& old_names[k] == name
                &&& renamed_token(name, old_names, new_names) == new_names[k]
            },
            None => renamed_token(name, old_names, new_names) == name,
        },
{
    assert forall|j: int| 0 <= j < old_names.len() implies (stands_whole(
        name + rest,
        inside,
        #[trigger] old_names[j],
    ) <==> old_names[j] == name) by {
        lemma_only_itself(name, rest, inside, old_names[j]);
    }
    lemma_found_name(name + rest, inside, name, old_names, new_names);
}

/// A placeholder is renamed as a whole where it ends, and what follows is
/// renamed by itself.
proof fn lemma_renamed_placeholder(
    name: Seq<char>,
    rest: Seq<char>,
    old_names: Seq<Seq<char>>,
    new_names: Seq<Seq<char>>,
)
    requires
        is_placeholder(name),
        ends_placeholder(rest),
        all_placeholders(old_names),
    ensures
        renamed_from(name + rest, false, old_names, new_names) == renamed_token(
            name,
            old_names,
            new_names,
        ) + renamed_from(rest, false, old_names, new_names),
{
    let text = name + rest;
    let after = renamed_from(rest, false, old_names, new_names);
    lemma_found_placeholder(name, rest, false, old_names, new_names);
    match found_at(text, false, old_names) {
        Some(k) => {
            assert(text.skip(name.len() as int) =~= rest);
            lemma_renamed_anywhere(rest, in_name(name.last()), false, old_names, new_names);
        },
        None => {
            let body = name.skip(1);
            assert(text[0] == name[0]);
            assert(text.skip(1) =~= body + rest);
            assert forall|i: int| 0 <= i < body.len() implies !starts_placeholder(
                #[trigger] body[i],
            ) by {
                assert(body[i] == name[i + 1]);
            }
            lemma_plain_all(body, body.len());
            lemma_renamed_anywhere(body + rest, in_name(text[0]), false, old_names, new_names);
            lemma_renamed_plain(body, rest, old_names, new_names);
            assert(seq![name[0]] + (body + after) =~= name + after);
        },
    }
}

proof fn lemma_text_true()
    ensures
        plain("true"@),
        "true"@.len() == 4,
{
    reveal_strlit("true");
    reveal_with_fuel(plain_to, 5);
}

proof fn lemma_text_open()
    ensures
        plain("("@),
        "("@.len() == 1,
{
    reveal_strlit("(");
    reveal_with_fuel(plain_to, 2);
}

proof fn lemma_text_close()
    ensures
        plain(")"@),
        ")"@.len() == 1,
        !continues_placeholder(")"@[0]),
{
    reveal_strlit(")");
    reveal_with_fuel(plain_to, 2);
}

proof fn lemma_text_space()
    ensures
        plain(" "@),
        " "@.len() == 1,
        !continues_placeholder(" "@[0]),
{
    reveal_strlit(" ");
    reveal_with_fuel(plain_to, 2);
}

proof fn lemma_text_and()
    ensures
        plain("and"@),
        "and"@.len() == 3,
{
    reveal_strlit("and");
    reveal_with_fuel(plain_to, 4);
}

proof fn lemma_text_or()
    ensures
        plain("or"@),
        "or"@.len() == 2,
{
    reveal_strlit("or");
    reveal_with_fuel(plain_to, 3);
}

proof fn lemma_text_entity()
    ensures
        plain("entity = "@),
        "entity = "@.len() == 9,
{
    reveal_strlit("entity = ");
    reveal_with_fuel(plain_to, 10);
}

proof fn lemma_text_with()
    ensures
        plain("entity in (select entity from components where component = "@),
        "entity in (select entity from components where component = "@.len() == 59,
{
    reveal_strlit("entity in (select entity from components where component = ");
    reveal_with_fuel(plain_to, 60);
}

proof fn lemma_text_without()
    ensures
        plain("entity not in (select entity from components where component = "@),
        "entity not in (select entity from components where component = "@.len() == 63,
{
    reveal_strlit("entity not in (select entity from components where component = ");
    reveal_with_fuel(plain_to, 64);
}

proof fn lemma_text_data_is_null()
    ensures
        plain(" and data is null)"@),
        " and data is null)"@.len() == 18,
        !continues_placeholder(" and data is null)"@[0]),
{
    reveal_strlit(" and data is null)");
    reveal_with_fuel(plain_to, 19);
}

proof fn lemma_text_data_equals()
    ensures
        plain(" and data = "@),
        " and data = "@.len() == 12,
        !continues_placeholder(" and data = "@[0]),
{
    reveal_strlit(" and data = ");
    reveal_with_fuel(plain_to, 13);
}

proof fn lemma_text_and_then()
    ensures
        plain(" and "@),
        " and "@.len() == 5,
        !continues_placeholder(" and "@[0]),
{
    reveal_strlit(" and ");
    reveal_with_fuel(plain_to, 6);
}

proof fn lemma_text_is_null()
    ensures
        plain("data is null"@),
        "data is null"@.len() == 12,
{
    reveal_strlit("data is null");
    reveal_with_fuel(plain_to, 13);
}

proof fn lemma_text_ordinal()
    ensures
        plain("extract_ordinal(data) "@),
        "extract_ordinal(data) "@.len() == 22,
{
    reveal_strlit("extract_ordinal(data) ");
    reveal_with_fuel(plain_to, 23);
}

proof fn lemma_text_ordinal_of()
    ensures
        plain(" extract_ordinal("@),
        " extract_ordinal("@.len() == 17,
{
    reveal_strlit(" extract_ordinal(");
    reveal_with_fuel(plain_to, 18);
}

proof fn lemma_text_at_most()
    ensures
        plain("<="@),
        "<="@.len() == 2,
{
    reveal_strlit("<=");
    reveal_with_fuel(plain_to, 3);
}

proof fn lemma_text_at_least()
    ensures
        plain(">="@),
        ">="@.len() == 2,
{
    reveal_strlit(">=");
    reveal_with_fuel(plain_to, 3);
}

proof fn lemma_text_between()
    ensures
        plain("extract_ordinal(data) between extract_ordinal("@),
        "extract_ordinal(data) between extract_ordinal("@.len() == 46,
{
    reveal_strlit("extract_ordinal(data) between extract_ordinal(");
    reveal_with_fuel(plain_to, 47);
}

proof fn lemma_text_between_and()
    ensures
        plain(") and extract_ordinal("@),
        ") and extract_ordinal("@.len() == 22,
        !continues_placeholder(") and extract_ordinal("@[0]),
{
    reveal_strlit(") and extract_ordinal(");
    reveal_with_fuel(plain_to, 23);
}

/// A text in which no character begins a placeholder is plain.
proof fn lemma_plain_all(text: Seq<char>, end: nat)
    requires
        end <= text.len(),
        forall|i: int| 0 <= i < end ==> !starts_placeholder(#[trigger] text[i]),
    ensures
        plain_to(text, end),
    decreases end,
{
    if end > 0 {
        lemma_plain_all(text, (end - 1) as nat);
    }
}

/// Plain texts, one after the other, are a plain text.
proof fn lemma_plain_concat(first: Seq<char>, second: Seq<char>)
    requires
        plain(first),
        plain(second),
    ensures
        plain(first + second),
{
    let text = first + second;
    assert forall|i: int| 0 <= i < text.len() implies !starts_placeholder(#[trigger] text[i]) by {
        if i < first.len() {
            lemma_plain_at(first, first.len(), i);
        } else {
            lemma_plain_at(second, second.len(), i - first.len());
        }
    }
    lemma_plain_all(text, text.len());
}

/// Whether the renaming of `old_names` to `new_names` takes each of `names`
/// to the one of `renamed` in its place.
pub open spec fn renames(
    names: Seq<Seq<char>>,
    renamed: Seq<Seq<char>>,
    old_names: Seq<Seq<char>>,
    new_names: Seq<Seq<char>>,
) -> bool {
    &&& names.len() == renamed.len()
    &&& forall|i: int|
        0 <= i < names.len() ==> renamed_token(#[trigger] names[i], old_names, new_names)
            == renamed[i]
}

/// A plain text and a placeholder after it: the text stays, the placeholder
/// is renamed, and what follows is renamed by itself.
proof fn lemma_renamed_piece(
    piece: Seq<char>,
    name: Seq<char>,
    rest: Seq<char>,
    old_names: Seq<Seq<char>>,
    new_names: Seq<Seq<char>>,
)
    requires
        all_placeholders(old_names),
        plain(piece),
        is_placeholder(name),
        ends_placeholder(rest),
    ensures
        renamed_from(piece + name + rest, false, old_names, new_names) == piece
            + renamed_token(name, old_names, new_names) + renamed_from(
            rest,
            false,
            old_names,
            new_names,
        ),
{
    assert(piece + name + rest =~= piece + (name + rest));
    lemma_renamed_plain(piece, name + rest, old_names, new_names);
    lemma_renamed_placeholder(name, rest, old_names, new_names);
    assert(piece + (renamed_token(name, old_names, new_names) + renamed_from(
        rest,
        false,
        old_names,
        new_names,
    )) =~= piece + renamed_token(name, old_names, new_names) + renamed_from(
        rest,
        false,
        old_names,
        new_names,
    ));
}

/// The condition on one bound of a range, renamed.
proof fn lemma_renamed_bound(
    operator: Seq<char>,
    name: Seq<char>,
    renamed: Seq<char>,
    rest: Seq<char>,
    old_names: Seq<Seq<char>>,
    new_names: Seq<Seq<char>>,
)
    requires
        all_placeholders(old_names),
        plain(operator),
        is_placeholder(name),
        renamed_token(name, old_names, new_names) == renamed,
        ends_placeholder(rest),
    ensures
        renamed_from(bound_condition(operator, name) + rest, false, old_names, new_names)
            == bound_condition(operator, renamed) + renamed_from(
            rest,
            false,
            old_names,
            new_names,
        ),
{
    lemma_text_ordinal();
    lemma_text_ordinal_of();
    lemma_text_close();
    let head = "extract_ordinal(data) "@ + operator + " extract_ordinal("@;
    lemma_plain_concat("extract_ordinal(data) "@, operator);
    lemma_plain_concat("extract_ordinal(data) "@ + operator, " extract_ordinal("@);
    let after = ")"@ + rest;
    assert(after[0] == ")"@[0]);
    lemma_renamed_piece(head, name, after, old_names, new_names);
    lemma_renamed_plain(")"@, rest, old_names, new_names);
    let tail = renamed_from(rest, false, old_names, new_names);
    assert(bound_condition(operator, name) + rest =~= head + name + after);
    assert(head + renamed + (")"@ + tail) =~= bound_condition(operator, renamed) + tail);
}

/// The condition of a range, renamed.
proof fn lemma_renamed_range(
    start: StoreValueView,
    end: StoreValueView,
    names: Seq<Seq<char>>,
    renamed: Seq<Seq<char>>,
    rest: Seq<char>,
    old_names: Seq<Seq<char>>,
    new_names: Seq<Seq<char>>,
)
    requires
        all_placeholders(old_names),
        names.len() == range_bounds(start, end).len() + 1,
        all_placeholders(names),
        renames(names, renamed, old_names, new_names),
        ends_placeholder(rest),
        rest.len() > 0 && !starts_placeholder(rest[0]),
    ensures
        renamed_from(
            range_condition(start, end, names) + rest,
            false,
            old_names,
            new_names,
        ) == range_condition(start, end, renamed) + renamed_from(
            rest,
            false,
            old_names,
            new_names,
        ),
{
    let tail = renamed_from(rest, false, old_names, new_names);
    if start is Null && end is Null {
        lemma_text_is_null();
        lemma_renamed_plain("data is null"@, rest, old_names, new_names);
    } else if start is Null {
        lemma_text_at_most();
        assert(is_placeholder(names[0]));
        lemma_renamed_bound("<="@, names[0], renamed[0], rest, old_names, new_names);
    } else if end is Null {
        lemma_text_at_least();
        assert(is_placeholder(names[0]));
        lemma_renamed_bound(">="@, names[0], renamed[0], rest, old_names, new_names);
    } else {
        lemma_text_between();
        lemma_text_between_and();
        lemma_text_close();
        assert(is_placeholder(names[0]));
        assert(is_placeholder(names[1]));
        let first = "extract_ordinal(data) between extract_ordinal("@;
        let second = ") and extract_ordinal("@;
        let last = ")"@ + rest;
        let middle = second + names[1] + last;
        assert(middle[0] == second[0]);
        assert(last[0] == ")"@[0]);
        lemma_renamed_piece(first, names[0], middle, old_names, new_names);
        lemma_renamed_piece(second, names[1], last, old_names, new_names);
        lemma_renamed_plain(")"@, rest, old_names, new_names);
        assert(range_condition(start, end, names) + rest =~= first + names[0] + middle);
        assert(first + renamed[0] + (second + renamed[1] + (")"@ + tail)) =~= range_condition(
            start,
            end,
            renamed,
        ) + tail);
    }
}

/// Renaming goes through the condition of an expression: where the
/// placeholders of the condition have the names `names`, and the renaming
/// takes each of them to the one of `renamed` in its place, the renamed
/// condition is the condition with the names `renamed`.
pub proof fn lemma_renamed_sql_with(
    expr: FilterExpr,
    names: Seq<Seq<char>>,
    renamed: Seq<Seq<char>>,
    rest: Seq<char>,
    old_names: Seq<Seq<char>>,
    new_names: Seq<Seq<char>>,
)
    requires
        all_placeholders(old_names),
        names.len() == bound_values(expr).len(),
        all_placeholders(names),
        renames(names, renamed, old_names, new_names),
        ends_placeholder(rest),
    ensures
        renamed_from(sql_with(expr, names) + rest, false, old_names, new_names) == sql_with(
            expr,
            renamed,
        ) + renamed_from(rest, false, old_names, new_names),
    decreases expr,
{
    let tail = renamed_from(rest, false, old_names, new_names);
    lemma_text_close();
    let closed = ")"@ + rest;
    assert(closed[0] == ")"@[0]);
    match expr {
        FilterExpr::NoFilter => {
            lemma_text_true();
            lemma_renamed_plain("true"@, rest, old_names, new_names);
        },
        FilterExpr::And(members) => {
            lemma_text_and();
            lemma_renamed_combined(members, "and"@, names, renamed, rest, old_names, new_names);
        },
        FilterExpr::Or(members) => {
            lemma_text_or();
            lemma_renamed_combined(members, "or"@, names, renamed, rest, old_names, new_names);
        },
        FilterExpr::EntityId(_) => {
            lemma_text_entity();
            assert(is_placeholder(names[0]));
            lemma_renamed_piece("entity = "@, names[0], rest, old_names, new_names);
        },
        FilterExpr::WithComponent(_) => {
            lemma_text_with();
            assert(is_placeholder(names[0]));
            let piece = "entity in (select entity from components where component = "@;
            lemma_renamed_piece(piece, names[0], closed, old_names, new_names);
            lemma_renamed_plain(")"@, rest, old_names, new_names);
            assert(sql_with(expr, names) + rest =~= piece + names[0] + closed);
            assert(piece + renamed[0] + (")"@ + tail) =~= sql_with(expr, renamed) + tail);
        },
        FilterExpr::WithoutComponent(_) => {
            lemma_text_without();
            assert(is_placeholder(names[0]));
            let piece = "entity not in (select entity from components where component = "@;
            lemma_renamed_piece(piece, names[0], closed, old_names, new_names);
            lemma_renamed_plain(")"@, rest, old_names, new_names);
            assert(sql_with(expr, names) + rest =~= piece + names[0] + closed);
            assert(piece + renamed[0] + (")"@ + tail) =~= sql_with(expr, renamed) + tail);
        },
        FilterExpr::WithComponentData(_, data) => {
            lemma_text_with();
            assert(is_placeholder(names[0]));
            let piece = "entity in (select entity from components where component = "@;
            if data is Null {
                lemma_text_data_is_null();
                let end = " and data is null)"@;
                let after = end + rest;
                assert(after[0] == end[0]);
                lemma_renamed_piece(piece, names[0], after, old_names, new_names);
                lemma_renamed_plain(end, rest, old_names, new_names);
                assert(sql_with(expr, names) + rest =~= piece + names[0] + after);
                assert(piece + renamed[0] + (end + tail) =~= sql_with(expr, renamed) + tail);
            } else {
                lemma_text_data_equals();
                assert(is_placeholder(names[1]));
                let equals = " and data = "@;
                let after = equals + names[1] + closed;
                assert(after[0] == equals[0]);
                lemma_renamed_piece(piece, names[0], after, old_names, new_names);
                lemma_renamed_piece(equals, names[1], closed, old_names, new_names);
                lemma_renamed_plain(")"@, rest, old_names, new_names);
                assert(sql_with(expr, names) + rest =~= piece + names[0] + after);
                assert(piece + renamed[0] + (equals + renamed[1] + (")"@ + tail)) =~= sql_with(
                    expr,
                    renamed,
                ) + tail);
            }
        },
        FilterExpr::WithComponentDataRange { component, start, end } => {
            lemma_text_with();
            lemma_text_and_then();
            let piece = "entity in (select entity from components where component = "@;
            let and_then = " and "@;
            let last = names.last();
            assert(is_placeholder(last));
            assert(renamed.last() == renamed_token(last, old_names, new_names));
            let condition = range_condition(start, end, names);
            let after = and_then + condition + closed;
            assert(after[0] == and_then[0]);
            lemma_renamed_piece(piece, last, after, old_names, new_names);
            assert(after =~= and_then + (condition + closed));
            lemma_renamed_plain(and_then, condition + closed, old_names, new_names);
            assert(!starts_placeholder(closed[0]) && !continues_placeholder(closed[0])) by {
                reveal_strlit(")");
            }
            lemma_renamed_range(start, end, names, renamed, closed, old_names, new_names);
            lemma_renamed_plain(")"@, rest, old_names, new_names);
            assert(sql_with(expr, names) + rest =~= piece + last + after);
            assert(piece + renamed.last() + (and_then + (range_condition(start, end, renamed) + (
            ")"@ + tail))) =~= sql_with(expr, renamed) + tail);
        },
    }
}

/// Renaming goes through a conjunction or disjunction.
proof fn lemma_renamed_combined(
    members: Seq<FilterExpr>,
    via: Seq<char>,
    names: Seq<Seq<char>>,
    renamed: Seq<Seq<char>>,
    rest: Seq<char>,
    old_names: Seq<Seq<char>>,
    new_names: Seq<Seq<char>>,
)
    requires
        all_placeholders(old_names),
        names.len() == all_bound_values(members).len(),
        all_placeholders(names),
        renames(names, renamed, old_names, new_names),
        ends_placeholder(rest),
        plain(via),
    ensures
        renamed_from(
            combined_sql(members, via, names) + rest,
            false,
            old_names,
            new_names,
        ) == combined_sql(members, via, renamed) + renamed_from(
            rest,
            false,
            old_names,
            new_names,
        ),
    decreases members, 1nat,
{
    let tail = renamed_from(rest, false, old_names, new_names);
    if members.len() == 0 {
        lemma_text_true();
        lemma_renamed_plain("true"@, rest, old_names, new_names);
    } else {
        lemma_text_open();
        lemma_text_close();
        let closed = ")"@ + rest;
        assert(closed[0] == ")"@[0]);
        let inner = joined(members, via, names);
        assert("("@ + inner + ")"@ + rest =~= "("@ + (inner + closed));
        lemma_renamed_plain("("@, inner + closed, old_names, new_names);
        lemma_renamed_joined(members, via, names, renamed, closed, old_names, new_names);
        lemma_renamed_plain(")"@, rest, old_names, new_names);
        assert("("@ + (joined(members, via, renamed) + (")"@ + tail)) =~= "("@ + joined(
            members,
            via,
            renamed,
        ) + ")"@ + tail);
    }
}

/// Renaming goes through the joined conditions of the members.
proof fn lemma_renamed_joined(
    members: Seq<FilterExpr>,
    via: Seq<char>,
    names: Seq<Seq<char>>,
    renamed: Seq<Seq<char>>,
    rest: Seq<char>,
    old_names: Seq<Seq<char>>,
    new_names: Seq<Seq<char>>,
)
    requires
        all_placeholders(old_names),
        members.len() > 0,
        names.len() == all_bound_values(members).len(),
        all_placeholders(names),
        renames(names, renamed, old_names, new_names),
        ends_placeholder(rest),
        plain(via),
    ensures
        renamed_from(joined(members, via, names) + rest, false, old_names, new_names)
            == joined(members, via, renamed) + renamed_from(
            rest,
            false,
            old_names,
            new_names,
        ),
    decreases members, 0nat,
{
    let tail = renamed_from(rest, false, old_names, new_names);
    if members.len() == 1 {
        assert(members.drop_last() =~= Seq::<FilterExpr>::empty());
        assert(all_bound_values(members) =~= bound_values(members[0]));
        lemma_renamed_sql_with(members[0], names, renamed, rest, old_names, new_names);
    } else {
        lemma_text_space();
        let front = members.drop_last();
        let last = members.last();
        let before = all_bound_values(front).len() as int;
        let front_names = names.take(before);
        let last_names = names.skip(before);
        let front_renamed = renamed.take(before);
        let last_renamed = renamed.skip(before);
        assert(all_placeholders(front_names)) by {
            assert forall|i: int| 0 <= i < front_names.len() implies is_placeholder(
                #[trigger] front_names[i],
            ) by {
                assert(front_names[i] == names[i]);
            }
        }
        assert(all_placeholders(last_names)) by {
            assert forall|i: int| 0 <= i < last_names.len() implies is_placeholder(
                #[trigger] last_names[i],
            ) by {
                assert(last_names[i] == names[i + before]);
            }
        }
        assert(renames(front_names, front_renamed, old_names, new_names)) by {
            assert forall|i: int| 0 <= i < front_names.len() implies renamed_token(
                #[trigger] front_names[i],
                old_names,
                new_names,
            ) == front_renamed[i] by {
                assert(front_names[i] == names[i]);
            }
        }
        assert(renames(last_names, last_renamed, old_names, new_names)) by {
            assert forall|i: int| 0 <= i < last_names.len() implies renamed_token(
                #[trigger] last_names[i],
                old_names,
                new_names,
            ) == last_renamed[i] by {
                assert(last_names[i] == names[i + before]);
            }
        }
        let glue = " "@ + via + " "@;
        lemma_plain_concat(" "@, via);
        lemma_plain_concat(" "@ + via, " "@);
        let last_sql = sql_with(last, last_names);
        let after = glue + (last_sql + rest);
        assert(after[0] == " "@[0]);
        lemma_renamed_joined(front, via, front_names, front_renamed, after, old_names, new_names);
        lemma_renamed_plain(glue, last_sql + rest, old_names, new_names);
        lemma_renamed_sql_with(last, last_names, last_renamed, rest, old_names, new_names);
        assert(joined(members, via, names) + rest =~= joined(front, via, front_names) + after);
        assert(joined(front, via, front_renamed) + (glue + (sql_with(last, last_renamed) + tail))
            =~= joined(members, via, renamed) + tail);
    }
}

/// Where no two of the old names are the same, each is renamed to the new
/// name in its place.
proof fn lemma_renames_distinct(old_names: Seq<Seq<char>>, new_names: Seq<Seq<char>>, i: int)
    requires
        distinct(old_names),
        0 <= i < old_names.len(),
    ensures
        renamed_token(old_names[i], old_names, new_names) == new_names[i],
    decreases old_names.len(),
{
    if i < old_names.len() - 1 {
        let front = old_names.drop_last();
        assert(old_names.last() != old_names[i]);
        assert(front[i] == old_names[i]);
        lemma_renames_distinct(front, new_names, i);
    }
}

/// The names that an expression's placeholders have when it is compiled by
/// itself are names of placeholders.
proof fn lemma_placeholder_names_are_placeholders(expr: FilterExpr)
    ensures
        all_placeholders(placeholder_names(expr)),
{
    let names = placeholder_names(expr);
    reveal_strlit("?1");
    reveal_strlit("?2");
    reveal_strlit("?3");
    reveal_strlit("?component");
    assert forall|i: int| 0 <= i < names.len() implies is_placeholder(#[trigger] names[i]) by {
        match expr {
            FilterExpr::And(_) => {
                lemma_numbered_is_placeholder((i + 1) as nat);
            },
            FilterExpr::Or(_) => {
                lemma_numbered_is_placeholder((i + 1) as nat);
            },
            _ => {},
        }
    }
}

/// A numbered name is the name of a placeholder.
proof fn lemma_numbered_is_placeholder(n: nat)
    ensures
        is_placeholder(placeholder_name(n)),
{
    lemma_decimal_digits(n);
    let name = placeholder_name(n);
    assert forall|i: int| 1 <= i < name.len() implies continues_placeholder(#[trigger] name[i]) by {
        assert(name[i] == decimal(n)[i - 1]);
    }
}

/// Renaming is numbering. The condition that an expression compiles to by
/// itself, with its placeholders renamed to the numbers that follow `taken`,
/// is the condition that the expression has in a conjunction or disjunction
/// in which `taken` placeholders are bound before it; and each placeholder is
/// renamed to the number in its place.
pub proof fn lemma_renaming_is_numbering(expr: FilterExpr, taken: nat)
    ensures
        renamed_sql(
            where_sql(expr),
            placeholder_names(expr),
            numbered_names(taken, bound_values(expr).len()),
        ) == sql_with(expr, numbered_names(taken, bound_values(expr).len())),
        renames(
            placeholder_names(expr),
            numbered_names(taken, bound_values(expr).len()),
            placeholder_names(expr),
            numbered_names(taken, bound_values(expr).len()),
        ),
{
    let names = placeholder_names(expr);
    let numbers = numbered_names(taken, bound_values(expr).len());
    lemma_placeholder_names_distinct(expr);
    lemma_placeholder_names_are_placeholders(expr);
    assert(distinct(names)) by {
        assert forall|i: int, j: int| 0 <= i < j < names.len() implies names[i] != names[j] by {
            assert(where_bindings(expr)[i].0 == names[i]);
            assert(where_bindings(expr)[j].0 == names[j]);
        }
    }
    assert forall|i: int| 0 <= i < names.len() implies renamed_token(
        #[trigger] names[i],
        names,
        numbers,
    ) == numbers[i] by {
        lemma_renames_distinct(names, numbers, i);
    }
    lemma_renamed_sql_with(expr, names, numbers, Seq::empty(), names, numbers);
    assert(where_sql(expr) + Seq::<char>::empty() =~= where_sql(expr));
    assert(sql_with(expr, numbers) + Seq::<char>::empty() =~= sql_with(expr, numbers));
}

/// The fragment that an expression compiles to, renamed by
/// `rename_identifier` when `taken` placeholders are numbered already, is what
/// the expression is rendered as in a conjunction or disjunction after
/// `taken` placeholders: combining by renaming the members' fragments and
/// combining by numbering the placeholders as they are bound give the same.
pub proof fn lemma_renamed_fragment<T>(fragment: SqlFragment<T>, expr: FilterExpr, taken: nat)
    requires
        fragment.sql@ == where_sql(expr),
        fragment.bindings() == where_bindings(expr),
    ensures
        fragment.renamed(taken) == (
            sql_with(expr, numbered_names(taken, bound_values(expr).len())),
            named(numbered_names(taken, bound_values(expr).len()), bound_values(expr)),
        ),
{
    lemma_renaming_is_numbering(expr, taken);
    lemma_placeholder_names_distinct(expr);
    let names = placeholder_names(expr);
    let numbers = numbered_names(taken, bound_values(expr).len());
    assert(fragment.names() =~= names);
    assert(fragment.placeholders@.len() == bound_values(expr).len());
    assert(fragment.renamed(taken).1 =~= named(numbers, bound_values(expr))) by {
        assert forall|i: int| 0 <= i < names.len() implies fragment.renamed(taken).1[i] == (
            numbers[i],
            bound_values(expr)[i],
        ) by {
            assert(renamed_token(names[i], names, numbers) == numbers[i]);
            assert(fragment.bindings()[i].1 == bound_values(expr)[i]);
        }
    }
}

} // verus!
