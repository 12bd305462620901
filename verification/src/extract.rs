//! The decision which archive entries to extract: the data files, by their
//! base name. Reading the archive belongs to callers.

use vstd::prelude::*;

verus! {

/// The part of an entry name after its last slash; empty when the name ends
/// with a slash.
pub open spec fn spec_base_name(s: Seq<char>) -> Seq<char>
    decreases s.len(),
{
    if s.len() == 0 {
        s
    } else if s.last() == '/' {
        Seq::empty()
    } else {
        spec_base_name(s.drop_last()) + seq![s.last()]
    }
}

/// Whether a name ends in `.jsonl`.
pub open spec fn spec_is_jsonl(s: Seq<char>) -> bool {
    s.len() >= 6 && s[s.len() - 6] == '.' && s[s.len() - 5] == 'j' && s[s.len() - 4] == 's'
        && s[s.len() - 3] == 'o' && s[s.len() - 2] == 'n' && s[s.len() - 1] == 'l'
}

/// The base file name of an archive entry when it is a data file to
/// extract, `None` otherwise.
pub fn jsonl_entry_name(name: &str) -> (r: Option<String>)
    ensures
        match r {
            Some(base) => base@ == spec_base_name(name@) && spec_is_jsonl(base@),
            None => !spec_is_jsonl(spec_base_name(name@)),
        },
{
    let n = name.unicode_len();
    let mut start: usize = 0;
    let mut k: usize = 0;
    while k < n
        invariant
            n == name@.len(),
            k <= n,
            start <= k,
            spec_base_name(name@.take(k as int)) == name@.take(k as int).skip(start as int),
        decreases n - k,
    {
        let c = name.get_char(k);
        proof {
            assert(name@.take(k as int + 1).drop_last() =~= name@.take(k as int));
            assert(name@.take(k as int + 1).last() == name@[k as int]);
        }
        if c == '/' {
            start = k + 1;
            proof {
                assert(name@.take(k as int + 1).skip(start as int) =~= Seq::<char>::empty());
            }
        } else {
            proof {
                assert(name@.take(k as int).skip(start as int) + seq![name@[k as int]]
                    =~= name@.take(k as int + 1).skip(start as int));
            }
        }
        k += 1;
    }
    proof {
        assert(name@.take(n as int) =~= name@);
    }
    let base = name.substring_char(start, n);
    proof {
        assert(base@ =~= name@.skip(start as int));
        assert(base@ == spec_base_name(name@));
    }
    let m = base.unicode_len();
    if m >= 6 && base.get_char(m - 6) == '.' && base.get_char(m - 5) == 'j' && base.get_char(m - 4)
        == 's' && base.get_char(m - 3) == 'o' && base.get_char(m - 2) == 'n' && base.get_char(
        m - 1,
    ) == 'l' {
        Some(base.to_owned())
    } else {
        None
    }
}

} // verus!
