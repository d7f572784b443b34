use crate::error::GpgError;
use vstd::prelude::*;

verus! {

/// The meaning of an output file template: the text with `{type}`,
/// `{query}` and `{ext}` replaced by the given values; no meaning when a
/// `{` opens anything else, an unknown or unclosed placeholder.
pub open spec fn spec_render(
    t: Seq<char>,
    ty: Seq<char>,
    query: Seq<char>,
    ext: Seq<char>,
) -> Option<Seq<char>>
    decreases t.len(),
{
    if t.len() == 0 {
        Some(Seq::empty())
    } else if t.len() >= 6 && t.subrange(0, 6) == "{type}"@ {
        match spec_render(t.skip(6), ty, query, ext) {
            Some(r) => Some(ty + r),
            None => None,
        }
    } else if t.len() >= 7 && t.subrange(0, 7) == "{query}"@ {
        match spec_render(t.skip(7), ty, query, ext) {
            Some(r) => Some(query + r),
            None => None,
        }
    } else if t.len() >= 5 && t.subrange(0, 5) == "{ext}"@ {
        match spec_render(t.skip(5), ty, query, ext) {
            Some(r) => Some(ext + r),
            None => None,
        }
    } else if t[0] == '{' {
        None
    } else {
        match spec_render(t.skip(1), ty, query, ext) {
            Some(r) => Some(seq![t[0]] + r),
            None => None,
        }
    }
}

/// Whether the characters of `t` starting at `i` are exactly `p`.
fn match_at(t: &str, i: usize, p: &str) -> (r: bool)
    requires
        i <= t@.len(),
    ensures
        r == (t@.len() >= i + p@.len() && t@.subrange(i as int, i as int + p@.len() as int)
            == p@),
{
    let tl = t.unicode_len();
    let pl = p.unicode_len();
    if pl > tl - i {
        return false;
    }
    let mut k: usize = 0;
    while k < pl
        invariant
            i + pl <= tl,
            tl == t@.len(),
            pl == p@.len(),
            k <= pl,
            forall|m: int| 0 <= m < k ==> t@[i + m] == p@[m],
        decreases pl - k,
    {
        let a = t.get_char(i + k);
        let b = p.get_char(k);
        if a != b {
            proof {
                if t@.subrange(i as int, i as int + p@.len() as int) == p@ {
                    assert(t@.subrange(i as int, i as int + p@.len() as int)[k as int] == t@[i
                        + k]);
                    assert(false);
                }
            }
            return false;
        }
        k += 1;
    }
    assert(t@.subrange(i as int, i as int + p@.len() as int) =~= p@);
    true
}

/// Renders an output file template, substituting `ty` for `{type}`,
/// `query` for `{query}` and `ext` for `{ext}`; any other use of `{` is a
/// template error.
pub fn render_template(t: &str, ty: &str, query: &str, ext: &str) -> (r: Result<String, GpgError>)
    ensures
        match r {
            Ok(s) => spec_render(t@, ty@, query@, ext@) == Some(s@),
            Err(e) => spec_render(t@, ty@, query@, ext@) is None && e == GpgError::TemplateError,
        },
{
    let n = t.unicode_len();
    let mut out = String::new();
    let mut i: usize = 0;
    proof {
        assert(t@.skip(0) =~= t@);
        match spec_render(t@, ty@, query@, ext@) {
            Some(rr) => {
                assert(out@ + rr =~= rr);
            }
            None => {
            }
        }
    }
    while i < n
        invariant
            i <= n,
            n == t@.len(),
            spec_render(t@, ty@, query@, ext@) == (match spec_render(
                t@.skip(i as int),
                ty@,
                query@,
                ext@,
            ) {
                Some(rr) => Some(out@ + rr),
                None => None::<Seq<char>>,
            }),
        decreases n - i,
    {
        proof {
            reveal_strlit("{type}");
            reveal_strlit("{query}");
            reveal_strlit("{ext}");
        }
        let ghost sk = t@.skip(i as int);
        let ghost o0 = out@;
        proof {
            if t@.len() >= i + 6 {
                assert(sk.subrange(0, 6) =~= t@.subrange(i as int, i as int + 6));
            }
            if t@.len() >= i + 7 {
                assert(sk.subrange(0, 7) =~= t@.subrange(i as int, i as int + 7));
            }
            if t@.len() >= i + 5 {
                assert(sk.subrange(0, 5) =~= t@.subrange(i as int, i as int + 5));
            }
        }
        if match_at(t, i, "{type}") {
            out.append(ty);
            proof {
                assert(sk.skip(6) =~= t@.skip(i as int + 6));
                match spec_render(sk.skip(6), ty@, query@, ext@) {
                    Some(rr) => {
                        assert(spec_render(sk, ty@, query@, ext@) == Some(ty@ + rr));
                        assert(o0 + (ty@ + rr) =~= out@ + rr);
                    }
                    None => {
                        assert(spec_render(sk, ty@, query@, ext@) is None);
                    }
                }
            }
            i += 6;
        } else if match_at(t, i, "{query}") {
            out.append(query);
            proof {
                assert(!(sk.len() >= 6 && sk.subrange(0, 6) == "{type}"@)) by {
                    if sk.len() >= 6 && sk.subrange(0, 6) == "{type}"@ {
                        assert(sk.subrange(0, 6)[1] == sk[1]);
                        assert(sk.subrange(0, 7)[1] == sk[1]);
                        assert(false);
                    }
                }
                assert(sk.skip(7) =~= t@.skip(i as int + 7));
                match spec_render(sk.skip(7), ty@, query@, ext@) {
                    Some(rr) => {
                        assert(spec_render(sk, ty@, query@, ext@) == Some(query@ + rr));
                        assert(o0 + (query@ + rr) =~= out@ + rr);
                    }
                    None => {
                        assert(spec_render(sk, ty@, query@, ext@) is None);
                    }
                }
            }
            i += 7;
        } else if match_at(t, i, "{ext}") {
            out.append(ext);
            proof {
                assert(!(sk.len() >= 6 && sk.subrange(0, 6) == "{type}"@)) by {
                    if sk.len() >= 6 && sk.subrange(0, 6) == "{type}"@ {
                        assert(sk.subrange(0, 6)[1] == sk[1]);
                        assert(sk.subrange(0, 5)[1] == sk[1]);
                        assert(false);
                    }
                }
                assert(!(sk.len() >= 7 && sk.subrange(0, 7) == "{query}"@)) by {
                    if sk.len() >= 7 && sk.subrange(0, 7) == "{query}"@ {
                        assert(sk.subrange(0, 7)[1] == sk[1]);
                        assert(sk.subrange(0, 5)[1] == sk[1]);
                        assert(false);
                    }
                }
                assert(sk.skip(5) =~= t@.skip(i as int + 5));
                match spec_render(sk.skip(5), ty@, query@, ext@) {
                    Some(rr) => {
                        assert(spec_render(sk, ty@, query@, ext@) == Some(ext@ + rr));
                        assert(o0 + (ext@ + rr) =~= out@ + rr);
                    }
                    None => {
                        assert(spec_render(sk, ty@, query@, ext@) is None);
                    }
                }
            }
            i += 5;
        } else {
            let c = t.get_char(i);
            if c == '{' {
                proof {
                    assert(sk[0] == t@[i as int]);
                    assert(spec_render(sk, ty@, query@, ext@) is None);
                }
                return Err(GpgError::TemplateError);
            }
            let piece = t.substring_char(i, i + 1);
            out.append(piece);
            proof {
                assert(piece@ =~= seq![sk[0]]);
                assert(sk.skip(1) =~= t@.skip(i as int + 1));
                match spec_render(sk.skip(1), ty@, query@, ext@) {
                    Some(rr) => {
                        assert(spec_render(sk, ty@, query@, ext@) == Some(seq![sk[0]] + rr));
                        assert(o0 + (seq![sk[0]] + rr) =~= out@ + rr);
                    }
                    None => {
                        assert(spec_render(sk, ty@, query@, ext@) is None);
                    }
                }
            }
            i += 1;
        }
    }
    proof {
        assert(t@.skip(n as int) =~= Seq::<char>::empty());
        assert(out@ + Seq::<char>::empty() =~= out@);
    }
    Ok(out)
}

} // verus!
