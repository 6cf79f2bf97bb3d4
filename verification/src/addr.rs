//! Reading a dotted-decimal address out of text: four dot-separated
//! decimal segments, each a byte value.

use vstd::prelude::*;
use crate::text::{dec_value, is_dec_digits, parse_u8};

verus! {

/// The segments of a string between its dots: splitting on `'.'`, keeping
/// empty segments, so that the result always holds one segment more than
/// the string holds dots.
pub open spec fn split_dots(s: Seq<char>) -> Seq<Seq<char>>
    decreases s.len(),
{
    if s.len() == 0 {
        seq![Seq::<char>::empty()]
    } else if s.last() == '.' {
        split_dots(s.drop_last()).push(Seq::<char>::empty())
    } else {
        let rest = split_dots(s.drop_last());
        rest.update(rest.len() - 1, rest.last().push(s.last()))
    }
}

/// Splitting yields at least one segment.
proof fn lemma_split_dots_len(s: Seq<char>)
    ensures
        split_dots(s).len() >= 1,
    decreases s.len(),
{
    if s.len() > 0 {
        lemma_split_dots_len(s.drop_last());
    }
}

/// The character sequences of a sequence of strings.
pub open spec fn views_of(v: Seq<String>) -> Seq<Seq<char>> {
    v.map_values(|s: String| s@)
}

/// The error text for a string that is no address.
fn invalid_ip_error(ip: &str) -> (m: String)
    ensures
        m@ == "invalid ip address: "@ + ip@,
{
    let mut m = String::from_str("invalid ip address: ");
    m.append(ip);
    m
}

/// Reads a dotted-decimal address: exactly four segments separated by
/// dots, each one or more decimal digits with a value of at most 255.
/// Any other shape — a wrong segment count, an empty segment, a sign, a
/// value out of range — is refused with an error text that repeats the
/// input.
pub fn slice_to_ip(ip: &str) -> (r: Result<[u8; 4], String>)
    ensures
        ({
            let parts = split_dots(ip@);
            &&& r is Ok <==> (parts.len() == 4 && forall|i: int|
                0 <= i < 4 ==> is_dec_digits(#[trigger] parts[i]) && dec_value(parts[i]) <= 255)
            &&& (r matches Ok(bytes) ==> forall|i: int|
                0 <= i < 4 ==> #[trigger] bytes@[i] as nat == dec_value(parts[i]))
        }),
        r matches Err(m) ==> m@ == "invalid ip address: "@ + ip@,
{
    let len = ip.unicode_len();
    let mut segs: Vec<String> = Vec::new();
    let mut seg_start: usize = 0;
    let mut i: usize = 0;
    proof {
        assert(ip@.subrange(0, 0) =~= Seq::<char>::empty());
        assert(ip@.subrange(0, 0).len() == 0);
        assert(views_of(segs@).push(ip@.subrange(0, 0)) =~= split_dots(ip@.subrange(0, 0)));
    }
    while i < len
        invariant
            len == ip@.len(),
            0 <= seg_start <= i <= len,
            views_of(segs@).push(ip@.subrange(seg_start as int, i as int)) =~= split_dots(
                ip@.subrange(0, i as int),
            ),
        decreases len - i,
    {
        let ghost prefix = ip@.subrange(0, i as int);
        let ghost prefix_next = ip@.subrange(0, i + 1);
        proof {
            assert(prefix_next.drop_last() =~= prefix);
            assert(prefix_next.last() == ip@[i as int]);
        }
        let c = ip.get_char(i);
        if c == '.' {
            let seg = String::from_str(ip.substring_char(seg_start, i));
            proof {
                assert(split_dots(prefix_next) == split_dots(prefix).push(Seq::<char>::empty()));
                assert(views_of(segs@.push(seg)) =~= views_of(segs@).push(seg@));
                assert(views_of(segs@.push(seg)).push(Seq::<char>::empty()) =~= split_dots(
                    prefix_next,
                ));
            }
            segs.push(seg);
            seg_start = i + 1;
            proof {
                assert(ip@.subrange(seg_start as int, i + 1) =~= Seq::<char>::empty());
            }
        } else {
            proof {
                let cur = ip@.subrange(seg_start as int, i as int);
                let parts = views_of(segs@).push(cur);
                assert(parts.last() == cur);
                assert(split_dots(prefix_next) == split_dots(prefix).update(
                    split_dots(prefix).len() - 1,
                    split_dots(prefix).last().push(ip@[i as int]),
                ));
                assert(ip@.subrange(seg_start as int, i + 1) =~= cur.push(ip@[i as int]));
                assert(views_of(segs@).push(ip@.subrange(seg_start as int, i + 1)) =~= parts.update(
                    parts.len() - 1,
                    cur.push(ip@[i as int]),
                ));
            }
        }
        i = i + 1;
    }
    let last_seg = String::from_str(ip.substring_char(seg_start, len));
    proof {
        assert(ip@.subrange(0, len as int) =~= ip@);
        assert(views_of(segs@.push(last_seg)) =~= views_of(segs@).push(last_seg@));
        assert(views_of(segs@.push(last_seg)) =~= split_dots(ip@));
    }
    segs.push(last_seg);
    if segs.len() != 4 {
        return Err(invalid_ip_error(ip));
    }
    proof {
        assert(split_dots(ip@).len() == 4);
        assert(split_dots(ip@)[0] == segs@[0]@);
        assert(split_dots(ip@)[1] == segs@[1]@);
        assert(split_dots(ip@)[2] == segs@[2]@);
        assert(split_dots(ip@)[3] == segs@[3]@);
    }
    let b0 = match parse_u8(segs[0].as_str()) {
        Some(v) => v,
        None => {
            return Err(invalid_ip_error(ip));
        },
    };
    let b1 = match parse_u8(segs[1].as_str()) {
        Some(v) => v,
        None => {
            return Err(invalid_ip_error(ip));
        },
    };
    let b2 = match parse_u8(segs[2].as_str()) {
        Some(v) => v,
        None => {
            return Err(invalid_ip_error(ip));
        },
    };
    let b3 = match parse_u8(segs[3].as_str()) {
        Some(v) => v,
        None => {
            return Err(invalid_ip_error(ip));
        },
    };
    let bytes = [b0, b1, b2, b3];
    proof {
        assert(bytes@ =~= seq![b0, b1, b2, b3]);
    }
    Ok(bytes)
}

} // verus!
