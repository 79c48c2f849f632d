//! Extended-attribute name lists as lwext4 returns them: names separated
//! (and usually terminated) by NUL bytes.
use crate::error::{Error, ErrorView};
use crate::text::string_from_utf8;
use vstd::prelude::*;
use vstd::utf8::{decode_utf8, valid_utf8};

verus! {

/// The position of the first NUL byte of `s`, or its length if it has none.
pub open spec fn first_nul(s: Seq<u8>) -> int
    decreases s.len(),
{
    if s.len() == 0 {
        0
    } else if s[0] == 0 {
        0
    } else {
        1 + first_nul(s.drop_first())
    }
}

/// `first_nul` lies within the sequence, no byte before it is NUL, and the
/// byte at it (if any) is NUL; and it is the only position with those
/// properties.
pub proof fn lemma_first_nul(s: Seq<u8>)
    ensures
        0 <= first_nul(s) <= s.len(),
        forall|i: int| 0 <= i < first_nul(s) ==> s[i] != 0,
        first_nul(s) < s.len() ==> s[first_nul(s)] == 0,
    decreases s.len(),
{
    if s.len() > 0 && s[0] != 0 {
        lemma_first_nul(s.drop_first());
        assert forall|i: int| 0 <= i < first_nul(s) implies s[i] != 0 by {
            if i > 0 {
                assert(s[i] == s.drop_first()[i - 1]);
            }
        }
    }
}

/// A position before which no byte is NUL, and at which the sequence ends or
/// holds a NUL, is the first NUL.
pub proof fn lemma_first_nul_at(s: Seq<u8>, k: int)
    requires
        0 <= k <= s.len(),
        forall|i: int| 0 <= i < k ==> s[i] != 0,
        k == s.len() || s[k] == 0,
    ensures
        first_nul(s) == k,
    decreases k,
{
    if k > 0 {
        let t = s.drop_first();
        assert forall|i: int| 0 <= i < k - 1 implies t[i] != 0 by {
            assert(t[i] == s[i + 1]);
        }
        if k < s.len() {
            assert(t[k - 1] == s[k]);
        }
        lemma_first_nul_at(t, k - 1);
    }
}

/// What follows the first NUL-terminated run of `s` (empty if `s` holds no
/// NUL).
pub open spec fn after_first_nul(s: Seq<u8>) -> Seq<u8> {
    if first_nul(s) < s.len() {
        s.subrange(first_nul(s) + 1, s.len() as int)
    } else {
        Seq::empty()
    }
}

/// The nonempty runs of non-NUL bytes of `s`, in order: the pieces that
/// splitting at every NUL byte yields, with the empty pieces left out.
pub open spec fn nul_chunks(s: Seq<u8>) -> Seq<Seq<u8>>
    decreases s.len(),
{
    if s.len() == 0 {
        Seq::empty()
    } else {
        proof {
            lemma_first_nul(s);
        }
        let k = first_nul(s);
        let tail = nul_chunks(after_first_nul(s));
        if k > 0 {
            seq![s.subrange(0, k)] + tail
        } else {
            tail
        }
    }
}

/// Whether every chunk is valid UTF-8.
pub open spec fn all_valid_utf8(chunks: Seq<Seq<u8>>) -> bool {
    forall|i: int| 0 <= i < chunks.len() ==> valid_utf8(#[trigger] chunks[i])
}

/// The message of the error for a name list that is not UTF-8.
pub open spec fn not_utf8_message(path: Seq<char>) -> Seq<char> {
    "xattr name on "@ + path + " is not UTF-8"@
}

/// Split a NUL-separated list of extended-attribute names into the names.
///
/// Empty names (from consecutive or trailing NUL bytes) are skipped. If any
/// name is not valid UTF-8, the result is an invalid-argument error whose
/// message names `path`.
pub fn parse_xattr_names(buf: &[u8], path: &str) -> (r: Result<Vec<String>, Error>)
    ensures
        match r {
            Ok(names) => {
                &&& all_valid_utf8(nul_chunks(buf@))
                &&& names.len() == nul_chunks(buf@).len()
                &&& forall|i: int|
                    0 <= i < names.len() ==> #[trigger] names[i]@ == decode_utf8(nul_chunks(buf@)[i])
            },
            Err(e) => {
                &&& !all_valid_utf8(nul_chunks(buf@))
                &&& e@ == ErrorView::InvalidArgument(not_utf8_message(path@))
            },
        },
{
    let n = buf.len();
    let mut names: Vec<String> = Vec::new();
    let ghost mut done: Seq<Seq<u8>> = Seq::empty();
    let mut start: usize = 0;
    assert(buf@.subrange(0, n as int) =~= buf@);
    assert(Seq::<Seq<u8>>::empty() + nul_chunks(buf@) =~= nul_chunks(buf@));
    while start < n
        invariant
            n == buf@.len(),
            start <= n,
            nul_chunks(buf@) == done + nul_chunks(buf@.subrange(start as int, n as int)),
            all_valid_utf8(done),
            names.len() == done.len(),
            forall|i: int| 0 <= i < names.len() ==> #[trigger] names[i]@ == decode_utf8(done[i]),
        decreases n - start,
    {
        let ghost s = buf@.subrange(start as int, n as int);
        let mut chunk: Vec<u8> = Vec::new();
        let mut j = start;
        while j < n && buf[j] != 0
            invariant
                n == buf@.len(),
                start <= j <= n,
                chunk@ == buf@.subrange(start as int, j as int),
                forall|i: int| start <= i < j ==> buf@[i] != 0,
            decreases n - j,
        {
            chunk.push(buf[j]);
            j = j + 1;
            assert(chunk@ =~= buf@.subrange(start as int, j as int));
        }
        proof {
            let k = j - start;
            assert forall|i: int| 0 <= i < k implies s[i] != 0 by {
                assert(s[i] == buf@[start + i]);
            }
            if j < n {
                assert(s[k] == buf@[j as int]);
            }
            lemma_first_nul_at(s, k);
            assert(chunk@ =~= s.subrange(0, k));
            if j < n {
                assert(after_first_nul(s) =~= buf@.subrange(j + 1, n as int));
            } else {
                assert(after_first_nul(s) =~= buf@.subrange(n as int, n as int));
            }
        }
        if j > start {
            let ghost c = chunk@;
            match string_from_utf8(chunk) {
                Some(name) => {
                    names.push(name);
                    proof {
                        assert(nul_chunks(s) == seq![c] + nul_chunks(after_first_nul(s)));
                        done = done.push(c);
                        assert(nul_chunks(buf@) =~= done + nul_chunks(after_first_nul(s)));
                    }
                },
                None => {
                    let mut msg = "xattr name on ".to_owned();
                    msg.append(path);
                    msg.append(" is not UTF-8");
                    proof {
                        let all = nul_chunks(buf@);
                        assert(all[done.len() as int] == c);
                    }
                    return Err(Error::InvalidArgument(msg));
                },
            }
        } else {
            proof {
                assert(nul_chunks(s) == nul_chunks(after_first_nul(s)));
            }
        }
        start = if j < n {
            j + 1
        } else {
            j
        };
    }
    proof {
        assert(buf@.subrange(n as int, n as int) =~= Seq::<u8>::empty());
        assert(done + Seq::<Seq<u8>>::empty() =~= done);
    }
    Ok(names)
}

/// The bytes of a list of names, each followed by a NUL byte, as lwext4
/// lays the list out.
pub open spec fn nul_terminated(names: Seq<Seq<u8>>) -> Seq<u8>
    decreases names.len(),
{
    if names.len() == 0 {
        Seq::empty()
    } else {
        names[0].push(0u8) + nul_terminated(names.drop_first())
    }
}

/// Whether each name is nonempty and holds no NUL byte.
pub open spec fn proper_names(names: Seq<Seq<u8>>) -> bool {
    forall|i: int|
        0 <= i < names.len() ==> (#[trigger] names[i]).len() > 0 && !names[i].contains(0u8)
}

/// Laying out proper names NUL-terminated and splitting the bytes at their
/// NUL bytes gives back the names.
pub proof fn lemma_nul_chunks_of_terminated(names: Seq<Seq<u8>>)
    requires
        proper_names(names),
    ensures
        nul_chunks(nul_terminated(names)) == names,
    decreases names.len(),
{
    if names.len() > 0 {
        let first = names[0];
        let rest = names.drop_first();
        assert(proper_names(rest)) by {
            assert forall|i: int| 0 <= i < rest.len() implies (#[trigger] rest[i]).len() > 0
                && !rest[i].contains(0u8) by {
                assert(rest[i] == names[i + 1]);
            }
        }
        lemma_nul_chunks_of_terminated(rest);
        let s = nul_terminated(names);
        let k = first.len() as int;
        assert(s == first.push(0u8) + nul_terminated(rest));
        assert forall|i: int| 0 <= i < k implies s[i] != 0 by {
            assert(s[i] == first[i]);
            if first[i] == 0 {
                assert(first.contains(0u8));
            }
        }
        assert(s[k] == 0);
        lemma_first_nul_at(s, k);
        assert(s.subrange(0, k) =~= first);
        assert(after_first_nul(s) =~= nul_terminated(rest));
        assert(nul_chunks(s) =~= seq![first] + rest);
        assert(seq![first] + rest =~= names);
    }
}

} // verus!
