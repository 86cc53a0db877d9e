//! The name of the coding tools that can be pointed at a wally endpoint.
//!
//! Commands, directories, apps and model families are all called after it, so
//! it is a value that the functions here take.

use crate::text;
use vstd::prelude::*;

verus! {

/// The name in the three ways it is written.
#[derive(Clone, Debug)]
pub struct Brand {
    /// In commands, hidden directories and model families: all lower case.
    pub word: String,
    /// In the names of apps and in sentences: capitalised.
    pub name: String,
    /// In the name of the memory file: all upper case.
    pub caps: String,
}

/// A brand as values.
pub struct BrandView {
    pub word: Seq<char>,
    pub name: Seq<char>,
    pub caps: Seq<char>,
}

impl View for Brand {
    type V = BrandView;

    open spec fn view(&self) -> BrandView {
        BrandView { word: self.word@, name: self.name@, caps: self.caps@ }
    }
}

/// A character with a small ASCII letter made a capital.
pub open spec fn upper(c: char) -> char {
    if 'a' <= c && c <= 'z' {
        (c as int - 32) as char
    } else {
        c
    }
}

fn upper_exec(c: char) -> (r: char)
    ensures
        r == upper(c),
{
    if 'a' <= c && c <= 'z' {
        let code: u8 = c as u8;
        (code - 32) as char
    } else {
        c
    }
}

/// A word with its first `n` characters in capitals.
pub open spec fn raised(word: Seq<char>, n: int) -> Seq<char> {
    Seq::new(
        word.len(),
        |i: int|
            if i < n {
                upper(word[i])
            } else {
                word[i]
            },
    )
}

fn raised_exec(word: &str, n: usize) -> (r: String)
    ensures
        r@ == raised(word@, n as int),
{
    let v = text::chars_of(word);
    let mut r = String::new();
    let mut i: usize = 0;
    while i < v.len()
        invariant
            i <= v@.len(),
            v@ == word@,
            r@ == raised(word@, n as int).take(i as int),
        decreases v@.len() - i,
    {
        r.push(
            if i < n {
                upper_exec(v[i])
            } else {
                v[i]
            },
        );
        i = i + 1;
        assert(r@ =~= raised(word@, n as int).take(i as int));
    }
    assert(r@ =~= raised(word@, n as int));
    r
}

/// The brand of a word, which is in small letters: with a capital in the names of
/// apps, and all in capitals in the name of the memory file.
pub fn brand_of(word: &str) -> (r: Brand)
    ensures
        r@ == (BrandView { word: word@, name: raised(word@, 1), caps: raised(word@, word@.len() as int) }),
{
    let length = text::chars_of(word).len();
    Brand { word: text::owned(word), name: raised_exec(word, 1), caps: raised_exec(word, length) }
}

/// A name starts with a capital and goes on as it was; in capitals every letter is
/// one.
pub proof fn a_name_starts_with_a_capital(word: Seq<char>)
    requires
        word.len() > 0,
        forall|i: int| 0 <= i < word.len() ==> 'a' <= #[trigger] word[i] && word[i] <= 'z',
    ensures
        raised(word, 1).len() == word.len(),
        raised(word, 1)[0] as int == word[0] as int - 32,
        raised(word, 1).skip(1) == word.skip(1),
        forall|i: int|
            0 <= i < word.len() ==> (#[trigger] raised(word, word.len() as int)[i]) as int == word[i] as int - 32,
{
    assert(raised(word, 1).skip(1) =~= word.skip(1));
}

} // verus!
