//! Package identifiers and their string form.
//!
//! An identifier names a package by origin and name, and optionally pins a
//! version, or a version and a release. Its string form joins these parts with
//! `/`: `origin/name`, `origin/name/version` or `origin/name/version/release`.

use crate::error::Error;
use crate::error::ErrorView;
use crate::text::opt_text;
use crate::text::texts;
use vstd::prelude::*;

verus! {

/// The identity of a package.
#[derive(Debug, PartialEq, Eq)]
pub struct PackageIdent {
    pub origin: String,
    pub name: String,
    pub version: Option<String>,
    pub release: Option<String>,
}

/// The mathematical value of a [`PackageIdent`].
pub struct IdentView {
    pub origin: Seq<char>,
    pub name: Seq<char>,
    pub version: Option<Seq<char>>,
    pub release: Option<Seq<char>>,
}

impl View for PackageIdent {
    type V = IdentView;

    open spec fn view(&self) -> IdentView {
        IdentView {
            origin: self.origin@,
            name: self.name@,
            version: opt_text(self.version),
            release: opt_text(self.release),
        }
    }
}

/// No character of `s` is the separator `/`.
pub open spec fn unbroken(s: Seq<char>) -> bool {
    forall|i: int| 0 <= i < s.len() ==> s[i] != '/'
}

impl IdentView {
    /// The identifier can be read back from its string form: no part holds a
    /// `/`, and a release comes only with a version.
    pub open spec fn wf(self) -> bool {
        &&& unbroken(self.origin)
        &&& unbroken(self.name)
        &&& self.version matches Some(v) ==> unbroken(v)
        &&& self.release matches Some(r) ==> unbroken(r)
        &&& self.release is Some ==> self.version is Some
    }

    /// The string form. A release without a version is not shown.
    pub open spec fn text(self) -> Seq<char> {
        let short = self.origin.push('/') + self.name;
        match (self.version, self.release) {
            (Some(v), Some(r)) => short.push('/') + v.push('/') + r,
            (Some(v), None) => short.push('/') + v,
            (None, _) => short,
        }
    }
}

/// The pieces of `s` between its separators, in order. A piece may be empty:
/// the empty string has one piece, and `/` has two.
pub open spec fn segments(s: Seq<char>) -> Seq<Seq<char>>
    decreases s.len(),
{
    if s.len() == 0 {
        seq![Seq::<char>::empty()]
    } else {
        let before = segments(s.drop_last());
        if s.last() == '/' {
            before.push(Seq::<char>::empty())
        } else {
            before.drop_last().push(before.last().push(s.last()))
        }
    }
}

/// The identifier that `s` is the string form of, if there is one.
pub open spec fn parse(s: Seq<char>) -> Option<IdentView> {
    let parts = segments(s);
    if parts.len() == 2 {
        Some(IdentView { origin: parts[0], name: parts[1], version: None, release: None })
    } else if parts.len() == 3 {
        Some(IdentView { origin: parts[0], name: parts[1], version: Some(parts[2]), release: None })
    } else if parts.len() == 4 {
        Some(
            IdentView {
                origin: parts[0],
                name: parts[1],
                version: Some(parts[2]),
                release: Some(parts[3]),
            },
        )
    } else {
        None
    }
}

/// `parts` joined by separators.
pub open spec fn joined(parts: Seq<Seq<char>>) -> Seq<char>
    decreases parts.len(),
{
    if parts.len() == 0 {
        Seq::<char>::empty()
    } else if parts.len() == 1 {
        parts[0]
    } else {
        joined(parts.drop_last()).push('/') + parts.last()
    }
}

/// Every piece of a split is free of separators, and there is at least one.
pub proof fn lemma_segments_unbroken(s: Seq<char>)
    ensures
        segments(s).len() >= 1,
        forall|k: int| 0 <= k < segments(s).len() ==> unbroken(#[trigger] segments(s)[k]),
    decreases s.len(),
{
    if s.len() > 0 {
        lemma_segments_unbroken(s.drop_last());
    }
}

/// Joining the pieces of a split gives the string back.
pub proof fn lemma_joined_segments(s: Seq<char>)
    ensures
        joined(segments(s)) == s,
    decreases s.len(),
{
    if s.len() > 0 {
        let before = segments(s.drop_last());
        lemma_segments_unbroken(s.drop_last());
        lemma_joined_segments(s.drop_last());
        if s.last() == '/' {
            // One more piece, an empty one: the join gains the separator.
            assert(before.push(Seq::<char>::empty()).drop_last() =~= before);
        } else {
            // The last piece grows by one character, and so does the join.
            let grown = before.last().push(s.last());
            if before.len() > 1 {
                assert(before.drop_last().push(grown).drop_last() =~= before.drop_last());
            }
            assert(joined(before).push(s.last()) =~= s);
        }
    }
}

/// Splitting what was joined from separator-free pieces gives the pieces back.
pub proof fn lemma_segments_joined(parts: Seq<Seq<char>>)
    requires
        parts.len() >= 1,
        forall|k: int| 0 <= k < parts.len() ==> unbroken(#[trigger] parts[k]),
    ensures
        segments(joined(parts)) == parts,
    decreases joined(parts).len(),
{
    let s = joined(parts);
    let tail = parts.last();
    if tail.len() > 0 {
        // The join ends in the last character of the last piece: take that
        // character away from both.
        let shorter = parts.drop_last().push(tail.drop_last());
        assert(shorter.drop_last() =~= parts.drop_last());
        assert(s.drop_last() =~= joined(shorter));
        assert forall|k: int| 0 <= k < shorter.len() implies unbroken(#[trigger] shorter[k]) by {
            assert(unbroken(parts[k]));
        }
        lemma_segments_joined(shorter);
        assert(tail.drop_last().push(tail.last()) =~= tail);
    } else if parts.len() == 1 {
        assert(s =~= Seq::<char>::empty());
    } else {
        // The last piece is empty, so the join ends in a separator: take the
        // piece and the separator away.
        let fewer = parts.drop_last();
        assert(s.drop_last() =~= joined(fewer));
        assert forall|k: int| 0 <= k < fewer.len() implies unbroken(#[trigger] fewer[k]) by {
            assert(unbroken(parts[k]));
        }
        lemma_segments_joined(fewer);
        assert(tail =~= Seq::<char>::empty());
    }
}

/// Reading the string form of a well-formed identifier gives the identifier
/// back.
pub proof fn lemma_parse_text(v: IdentView)
    requires
        v.wf(),
    ensures
        parse(v.text()) == Some(v),
{
    let parts = match (v.version, v.release) {
        (Some(version), Some(release)) => seq![v.origin, v.name, version, release],
        (Some(version), None) => seq![v.origin, v.name, version],
        (None, _) => seq![v.origin, v.name],
    };
    assert(joined(parts) =~= v.text()) by {
        reveal_with_fuel(joined, 4);
    }
    lemma_segments_joined(parts);
}

/// Whatever can be read from a string is well-formed and has that string as
/// its string form.
pub proof fn lemma_text_parse(s: Seq<char>)
    ensures
        parse(s) matches Some(v) ==> v.wf() && v.text() == s,
{
    let parts = segments(s);
    lemma_segments_unbroken(s);
    lemma_joined_segments(s);
    if 2 <= parts.len() <= 4 {
        assert(joined(parts) =~= parse(s)->0.text()) by {
            reveal_with_fuel(joined, 4);
        }
    }
}

/// Two well-formed identifiers with the same string form are the same.
pub proof fn lemma_text_injective(a: IdentView, b: IdentView)
    requires
        a.wf(),
        b.wf(),
        a.text() == b.text(),
    ensures
        a == b,
{
    lemma_parse_text(a);
    lemma_parse_text(b);
}

/// Splits `value` at its separators.
fn split(value: &str) -> (parts: Vec<String>)
    ensures
        texts(parts@) == segments(value@),
{
    let n = value.unicode_len();
    let mut parts: Vec<String> = Vec::new();
    let mut start: usize = 0;
    let mut i: usize = 0;
    proof {
        assert(value@.take(0) =~= Seq::<char>::empty());
    }
    while i < n
        invariant
            n == value@.len(),
            start <= i <= n,
            segments(value@.take(i as int)) == texts(parts@).push(
                value@.subrange(start as int, i as int),
            ),
        decreases n - i,
    {
        let c = value.get_char(i);
        proof {
            let seen = value@.take(i + 1);
            assert(seen.drop_last() =~= value@.take(i as int));
        }
        if c == '/' {
            parts.push(value.substring_char(start, i).to_owned());
            start = i + 1;
            proof {
                assert(value@.subrange(start as int, i + 1) =~= Seq::<char>::empty());
            }
        } else {
            proof {
                let current = value@.subrange(start as int, i as int);
                assert(current.push(c) =~= value@.subrange(start as int, i + 1));
            }
        }
        i = i + 1;
    }
    parts.push(value.substring_char(start, n).to_owned());
    proof {
        assert(value@.take(n as int) =~= value@);
    }
    parts
}

impl PackageIdent {
    /// Reads an identifier from its string form: two to four parts separated
    /// by `/`. Any other string is malformed.
    pub fn from_str(value: &str) -> (r: Result<PackageIdent, Error>)
        ensures
            match r {
                Ok(ident) => parse(value@) == Some(ident@) && ident@.wf() && ident@.text()
                    == value@,
                Err(e) => parse(value@) is None && e@ == ErrorView::MalformedIdentifier(value@),
            },
    {
        let mut parts = split(value);
        proof {
            lemma_text_parse(value@);
        }
        let count = parts.len();
        if count < 2 || count > 4 {
            return Err(Error::MalformedIdentifier(value.to_owned()));
        }
        let release = if count == 4 {
            parts.pop()
        } else {
            None
        };
        let version = if count >= 3 {
            parts.pop()
        } else {
            None
        };
        let name = parts.pop().unwrap();
        let origin = parts.pop().unwrap();
        Ok(PackageIdent { origin, name, version, release })
    }

    /// The string form: `origin/name`, followed by `/version` where a version
    /// is set, and by `/release` where a release is set as well.
    pub fn to_string(&self) -> (r: String)
        ensures
            r@ == self@.text(),
    {
        proof {
            reveal_strlit("/");
        }
        let mut s = self.origin.clone();
        s.append("/");
        s.append(self.name.as_str());
        match &self.version {
            Some(version) => {
                s.append("/");
                s.append(version.as_str());
                if let Some(release) = &self.release {
                    s.append("/");
                    s.append(release.as_str());
                }
            },
            None => {},
        }
        s
    }
}

impl Clone for PackageIdent {
    fn clone(&self) -> (r: Self)
        ensures
            r@ == self@,
    {
        PackageIdent {
            origin: self.origin.clone(),
            name: self.name.clone(),
            version: match &self.version {
                Some(v) => Some(v.clone()),
                None => None,
            },
            release: match &self.release {
                Some(r) => Some(r.clone()),
                None => None,
            },
        }
    }
}

} // verus!
