use vstd::prelude::*;

verus! {

/// The characters a slug is made of besides its dashes: ASCII digits and
/// ASCII lowercase letters.
pub open spec fn is_slug_char(c: char) -> bool {
    ('0' <= c && c <= '9') || ('a' <= c && c <= 'z')
}

/// The pieces of `s` between its dashes, in order, exactly as splitting a
/// string at every `'-'` yields them (an empty string gives one empty piece).
pub open spec fn dash_segments(s: Seq<char>) -> Seq<Seq<char>>
    decreases s.len(),
{
    if s.len() == 0 {
        seq![Seq::<char>::empty()]
    } else {
        let init = dash_segments(s.drop_last());
        if s.last() == '-' {
            init.push(Seq::<char>::empty())
        } else {
            init.update(init.len() - 1, init.last().push(s.last()))
        }
    }
}

/// Every character of `seg` is a slug character.
pub open spec fn all_slug_chars(seg: Seq<char>) -> bool {
    forall|j: int| 0 <= j < seg.len() ==> is_slug_char(#[trigger] seg[j])
}

/// A piece between dashes is acceptable when it is not empty and is made of
/// slug characters only.
pub open spec fn is_slug_segment(seg: Seq<char>) -> bool {
    seg.len() > 0 && all_slug_chars(seg)
}

/// A string is a slug when every piece between its dashes is a non-empty
/// run of ASCII digits and lowercase letters.
pub open spec fn is_valid_slug(s: Seq<char>) -> bool {
    forall|k: int|
        0 <= k < dash_segments(s).len() ==> is_slug_segment(#[trigger] dash_segments(s)[k])
}

/// The same property read character by character: the string is not empty,
/// does not begin or end with a dash, holds no two dashes in a row, and has
/// no character but dashes and slug characters.
pub open spec fn has_slug_shape(s: Seq<char>) -> bool {
    &&& s.len() > 0
    &&& s[0] != '-'
    &&& s.last() != '-'
    &&& forall|i: int| 0 <= i < s.len() ==> (is_slug_char(#[trigger] s[i]) || s[i] == '-')
    &&& forall|i: int| 0 <= i < s.len() - 1 ==> !(#[trigger] s[i] == '-' && s[i + 1] == '-')
}

/// All pieces but the last are acceptable and the last has slug characters
/// only (it may still grow or stay empty).
spec fn prefix_ok(s: Seq<char>) -> bool {
    let segs = dash_segments(s);
    &&& forall|k: int| 0 <= k < segs.len() - 1 ==> is_slug_segment(#[trigger] segs[k])
    &&& all_slug_chars(segs.last())
}

/// Every character is a slug character or a dash, and every dash follows a
/// character that is not a dash.
spec fn prefix_shape(s: Seq<char>) -> bool {
    &&& forall|i: int| 0 <= i < s.len() ==> (is_slug_char(#[trigger] s[i]) || s[i] == '-')
    &&& forall|i: int| 0 <= i < s.len() && #[trigger] s[i] == '-' ==> i > 0 && s[i - 1] != '-'
}

proof fn lemma_segments_nonempty(s: Seq<char>)
    ensures
        dash_segments(s).len() >= 1,
    decreases s.len(),
{
    if s.len() > 0 {
        lemma_segments_nonempty(s.drop_last());
    }
}

proof fn lemma_last_segment(s: Seq<char>)
    ensures
        (dash_segments(s).last().len() > 0) <==> (s.len() > 0 && s.last() != '-'),
{
    if s.len() > 0 {
        lemma_segments_nonempty(s.drop_last());
    }
}

proof fn lemma_prefix_ok_step(s: Seq<char>, c: char)
    ensures
        prefix_ok(s.push(c)) <==> (if c == '-' {
            prefix_ok(s) && dash_segments(s).last().len() > 0
        } else {
            prefix_ok(s) && is_slug_char(c)
        }),
{
    let t = s.push(c);
    assert(t.drop_last() =~= s);
    lemma_segments_nonempty(s);
    let segs = dash_segments(s);
    let segs2 = dash_segments(t);
    if c == '-' {
        assert(segs2 == segs.push(Seq::<char>::empty()));
        if prefix_ok(t) {
            assert forall|k: int| 0 <= k < segs.len() - 1 implies is_slug_segment(
                #[trigger] segs[k],
            ) by {
                assert(segs2[k] == segs[k]);
            }
            assert(segs2[segs.len() - 1] == segs.last());
        }
        if prefix_ok(s) && segs.last().len() > 0 {
            assert forall|k: int| 0 <= k < segs2.len() - 1 implies is_slug_segment(
                #[trigger] segs2[k],
            ) by {
                assert(segs2[k] == segs[k]);
            }
            assert(all_slug_chars(segs2.last()));
        }
    } else {
        let last2 = segs.last().push(c);
        assert(segs2 == segs.update(segs.len() - 1, last2));
        assert(segs2.last() == last2);
        if prefix_ok(t) {
            assert forall|k: int| 0 <= k < segs.len() - 1 implies is_slug_segment(
                #[trigger] segs[k],
            ) by {
                assert(segs2[k] == segs[k]);
            }
            assert forall|j: int| 0 <= j < segs.last().len() implies is_slug_char(
                #[trigger] segs.last()[j],
            ) by {
                assert(last2[j] == segs.last()[j]);
            }
            assert(last2[last2.len() - 1] == c);
        }
        if prefix_ok(s) && is_slug_char(c) {
            assert forall|k: int| 0 <= k < segs2.len() - 1 implies is_slug_segment(
                #[trigger] segs2[k],
            ) by {
                assert(segs2[k] == segs[k]);
            }
            assert forall|j: int| 0 <= j < last2.len() implies is_slug_char(#[trigger] last2[j]) by {
                if j < segs.last().len() {
                    assert(last2[j] == segs.last()[j]);
                }
            }
        }
    }
}

proof fn lemma_prefix_ok_shape(s: Seq<char>)
    ensures
        prefix_ok(s) <==> prefix_shape(s),
    decreases s.len(),
{
    if s.len() == 0 {
        assert(dash_segments(s).last() =~= Seq::<char>::empty());
    } else {
        let t = s.drop_last();
        let c = s.last();
        assert(s =~= t.push(c));
        lemma_prefix_ok_shape(t);
        lemma_prefix_ok_step(t, c);
        lemma_last_segment(t);
        if prefix_shape(s) {
            assert forall|i: int| 0 <= i < t.len() implies (is_slug_char(#[trigger] t[i]) || t[i]
                == '-') by {
                assert(t[i] == s[i]);
            }
            assert forall|i: int| 0 <= i < t.len() && #[trigger] t[i] == '-' implies i > 0 && t[i
                - 1] != '-' by {
                assert(t[i] == s[i]);
                assert(s[i] == '-');
            }
            assert(is_slug_char(s[s.len() - 1]) || s[s.len() - 1] == '-');
            if c == '-' {
                assert(s[s.len() - 1] == '-');
            }
        }
        if prefix_shape(t) && (if c == '-' {
            t.len() > 0 && t.last() != '-'
        } else {
            is_slug_char(c)
        }) {
            assert forall|i: int| 0 <= i < s.len() implies (is_slug_char(#[trigger] s[i]) || s[i]
                == '-') by {
                if i < t.len() {
                    assert(s[i] == t[i]);
                }
            }
            assert forall|i: int| 0 <= i < s.len() && #[trigger] s[i] == '-' implies i > 0 && s[i
                - 1] != '-' by {
                if i < t.len() {
                    assert(s[i] == t[i]);
                    assert(s[i - 1] == t[i - 1]);
                } else {
                    assert(s[i - 1] == t[t.len() - 1]);
                }
            }
        }
    }
}

/// A slug, read piece by piece between its dashes, is the same thing as a
/// string of slug characters and single dashes that neither begins nor ends
/// with a dash.
pub proof fn lemma_slug_shape(s: Seq<char>)
    ensures
        is_valid_slug(s) <==> has_slug_shape(s),
{
    lemma_segments_nonempty(s);
    lemma_last_segment(s);
    lemma_prefix_ok_shape(s);
    let segs = dash_segments(s);
    if is_valid_slug(s) {
        assert(is_slug_segment(segs[segs.len() - 1]));
        assert forall|k: int| 0 <= k < segs.len() - 1 implies is_slug_segment(#[trigger] segs[k]) by {
        }
        assert(prefix_ok(s));
        assert(s[0] != '-');
        assert forall|i: int| 0 <= i < s.len() - 1 implies !(#[trigger] s[i] == '-' && s[i + 1]
            == '-') by {
            if s[i + 1] == '-' {
                assert(s[(i + 1) - 1] != '-');
            }
        }
    }
    if has_slug_shape(s) {
        assert forall|i: int| 0 <= i < s.len() && #[trigger] s[i] == '-' implies i > 0 && s[i - 1]
            != '-' by {
            if i > 0 {
                assert(!(s[i - 1] == '-' && s[(i - 1) + 1] == '-'));
            }
        }
        assert(prefix_shape(s));
        assert(prefix_ok(s));
        assert forall|k: int| 0 <= k < segs.len() implies is_slug_segment(#[trigger] segs[k]) by {
            if k == segs.len() - 1 {
                assert(segs[k] == segs.last());
            }
        }
    }
}

/// The slug alphabet, written out: a string is a slug exactly when it is not
/// empty, neither begins nor ends with a dash, holds no two dashes in a row,
/// and every character is an ASCII lowercase letter `'a'..='z'`, an ASCII
/// digit `'0'..='9'` or a dash.
pub proof fn lemma_slug_alphabet(s: Seq<char>)
    ensures
        is_valid_slug(s) <==> {
            &&& s.len() > 0
            &&& s[0] != '-'
            &&& s[s.len() - 1] != '-'
            &&& forall|i: int|
                0 <= i < s.len() ==> ('a' <= #[trigger] s[i] && s[i] <= 'z') || ('0' <= s[i]
                    && s[i] <= '9') || s[i] == '-'
            &&& forall|i: int| 0 <= i < s.len() - 1 ==> !(#[trigger] s[i] == '-' && s[i + 1] == '-')
        },
{
    lemma_slug_shape(s);
}

/// The reason a string was refused as a slug.
#[derive(Debug, PartialEq, Eq, Structural)]
pub enum SlugError {
    /// Some piece between dashes is empty or holds a character other than an
    /// ASCII digit or lowercase letter.
    IllegalCharacters,
}

impl SlugError {
    /// The text of the refusal.
    pub fn message(&self) -> (res: &'static str)
        ensures
            res@ == "Illegal characters"@,
    {
        "Illegal characters"
    }
}

/// A URL-safe identifier: pieces of ASCII digits and lowercase letters joined
/// by single dashes.
pub struct Slug(String);

impl View for Slug {
    type V = Seq<char>;

    closed spec fn view(&self) -> Seq<char> {
        self.0@
    }
}

impl Slug {
    #[verifier::type_invariant]
    spec fn wf(self) -> bool {
        is_valid_slug(self.0@)
    }

    /// Accepts `value` exactly when every piece between its dashes is a
    /// non-empty run of ASCII digits and lowercase letters.
    pub fn try_from(value: String) -> (res: Result<Slug, SlugError>)
        ensures
            res is Ok <==> is_valid_slug(value@),
            res is Ok <==> {
                &&& value@.len() > 0
                &&& value@[0] != '-'
                &&& value@[value@.len() - 1] != '-'
                &&& forall|i: int|
                    0 <= i < value@.len() ==> ('a' <= #[trigger] value@[i] && value@[i] <= 'z') || (
                    '0' <= value@[i] && value@[i] <= '9') || value@[i] == '-'
                &&& forall|i: int|
                    0 <= i < value@.len() - 1 ==> !(#[trigger] value@[i] == '-' && value@[i + 1]
                        == '-')
            },
            res matches Ok(slug) ==> slug@ == value@,
            res matches Err(e) ==> e == SlugError::IllegalCharacters,
    {
        proof {
            lemma_slug_alphabet(value@);
        }
        let mut ok = true;
        let mut current_empty = true;
        proof {
            assert(value@.take(0) =~= Seq::<char>::empty());
            assert(dash_segments(value@.take(0)).last() =~= Seq::<char>::empty());
        }
        for c in it: value.as_str().chars()
            invariant
                it.seq() == value@,
                ok == prefix_ok(value@.take(it.index() as int)),
                current_empty == (dash_segments(value@.take(it.index() as int)).last().len() == 0),
        {
            let ghost p = value@.take(it.index() as int);
            proof {
                assert(value@.take(it.index() + 1) =~= p.push(c));
                lemma_prefix_ok_step(p, c);
                lemma_segments_nonempty(p);
                lemma_last_segment(p.push(c));
                lemma_last_segment(p);
            }
            if c == '-' {
                ok = ok && !current_empty;
                current_empty = true;
            } else {
                let slug_char = ('0' <= c && c <= '9') || ('a' <= c && c <= 'z');
                ok = ok && slug_char;
                current_empty = false;
            }
        }
        proof {
            assert(value@.take(value@.len() as int) =~= value@);
            let segs = dash_segments(value@);
            lemma_segments_nonempty(value@);
            if ok && !current_empty {
                assert forall|k: int| 0 <= k < segs.len() implies is_slug_segment(
                    #[trigger] segs[k],
                ) by {
                    if k == segs.len() - 1 {
                        assert(segs[k] == segs.last());
                    }
                }
            }
            if is_valid_slug(value@) {
                assert(is_slug_segment(segs[segs.len() - 1]));
                assert forall|k: int| 0 <= k < segs.len() - 1 implies is_slug_segment(
                    #[trigger] segs[k],
                ) by {}
            }
        }
        if ok && !current_empty {
            Ok(Slug(value))
        } else {
            Err(SlugError::IllegalCharacters)
        }
    }

    /// The slug's text.
    pub fn as_ref(&self) -> (res: &str)
        ensures
            res@ == self@,
            is_valid_slug(res@),
    {
        proof {
            use_type_invariant(self);
        }
        self.0.as_str()
    }
}

} // verus!
