//! Lists of owned strings built from literals, their views, and windows of recent items.
use vstd::prelude::*;
use crate::protocol::string_views;
use crate::text::owned;

verus! {

/// The views of a vector of string pairs.
pub open spec fn pair_views(v: Seq<(String, String)>) -> Seq<(Seq<char>, Seq<char>)> {
    v.map_values(|p: (String, String)| (p.0@, p.1@))
}

/// Owned copies of string pairs.
pub fn string_pairs(pairs: &[(&str, &str)]) -> (r: Vec<(String, String)>)
    ensures
        pair_views(r@) == pairs@.map_values(|p: (&str, &str)| (p.0@, p.1@)),
{
    let mut out: Vec<(String, String)> = Vec::new();
    let n = pairs.len();
    let mut i: usize = 0;
    while i < n
        invariant
            i <= n,
            n == pairs@.len(),
            pair_views(out@) == pairs@.map_values(|p: (&str, &str)| (p.0@, p.1@)).take(i as int),
        decreases n - i,
    {
        let (a, b) = pairs[i];
        let ghost before = pair_views(out@);
        out.push((owned(a), owned(b)));
        proof {
            assert(pair_views(out@) =~= before.push((a@, b@)));
            assert(pairs@.map_values(|p: (&str, &str)| (p.0@, p.1@)).take(i + 1) =~= pairs@.map_values(
                |p: (&str, &str)| (p.0@, p.1@),
            ).take(i as int).push((a@, b@)));
        }
        i += 1;
    }
    proof {
        assert(pairs@.map_values(|p: (&str, &str)| (p.0@, p.1@)).take(n as int) =~= pairs@.map_values(
            |p: (&str, &str)| (p.0@, p.1@),
        ));
    }
    out
}

pub fn strings(items: &[&str]) -> (r: Vec<String>)
    ensures
        string_views(r@) == items@.map_values(|s: &str| s@),
{
    let mut out: Vec<String> = Vec::new();
    let n = items.len();
    let mut i: usize = 0;
    while i < n
        invariant
            i <= n,
            n == items@.len(),
            string_views(out@) == items@.map_values(|s: &str| s@).take(i as int),
        decreases n - i,
    {
        let ghost before = string_views(out@);
        out.push(owned(items[i]));
        proof {
            assert(string_views(out@) =~= before.push(items@[i as int]@));
            assert(items@.map_values(|s: &str| s@).take(i + 1) =~= items@.map_values(
                |s: &str| s@,
            ).take(i as int).push(items@[i as int]@));
        }
        i += 1;
    }
    proof {
        assert(items@.map_values(|s: &str| s@).take(n as int) =~= items@.map_values(|s: &str| s@));
    }
    out
}


/// Appends `x` to a window of recent items holding at most `cap` of them: the oldest
/// item leaves when the window would grow past `cap`.
pub fn push_window<T>(v: &mut Vec<T>, x: T, cap: usize)
    ensures
        final(v)@ == (if old(v)@.len() + 1 > cap {
            old(v)@.push(x).drop_first()
        } else {
            old(v)@.push(x)
        }),
{
    v.push(x);
    if v.len() > cap {
        v.remove(0);
        proof {
            assert(v@ =~= old(v)@.push(x).drop_first());
        }
    }
}

} // verus!
