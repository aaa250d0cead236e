use vstd::prelude::*;

verus! {

/// `s` with every trailing separator removed.
pub open spec fn trim_trailing_seps(s: Seq<char>) -> Seq<char>
    decreases s.len(),
{
    if s.len() > 0 && s.last() == '/' {
        trim_trailing_seps(s.drop_last())
    } else {
        s
    }
}

/// The suffix of `s` after its last separator. Meaningful once trailing
/// separators are gone; a sequence ending in a separator yields the empty
/// sequence.
pub open spec fn last_component(s: Seq<char>) -> Seq<char>
    decreases s.len(),
{
    if s.len() == 0 {
        s
    } else if s.last() == '/' {
        Seq::<char>::empty()
    } else {
        last_component(s.drop_last()).push(s.last())
    }
}

/// The display name of the path `s`: its last component, with trailing
/// separators ignored; a path made of separators alone names the root.
pub open spec fn spec_extract_name(s: Seq<char>) -> Seq<char> {
    let t = trim_trailing_seps(s);
    if t.len() == 0 {
        seq!['/']
    } else {
        last_component(t)
    }
}

/// The parent of the path `s`: the path with its last component removed.
/// `None` for the root and for the empty path; a lone relative component has
/// the empty path as its parent.
pub open spec fn spec_parent_dir(s: Seq<char>) -> Option<Seq<char>> {
    let t = trim_trailing_seps(s);
    if t.len() == 0 {
        None
    } else {
        let head = t.take(t.len() - last_component(t).len());
        let h = trim_trailing_seps(head);
        if h.len() == 0 && head.len() > 0 {
            Some(seq!['/'])
        } else {
            Some(h)
        }
    }
}

proof fn lemma_trim_take(s: Seq<char>, e: int)
    requires
        0 <= e <= s.len(),
        forall|k: int| e <= k < s.len() ==> s[k] == '/',
        e == 0 || s[e - 1] != '/',
    ensures
        trim_trailing_seps(s) == s.take(e),
    decreases s.len(),
{
    if s.len() == e {
        assert(s.take(e) =~= s);
    } else {
        assert(s.last() == '/');
        assert forall|k: int| e <= k < s.drop_last().len() implies s.drop_last()[k] == '/' by {
            assert(s.drop_last()[k] == s[k]);
        }
        lemma_trim_take(s.drop_last(), e);
        assert(s.drop_last().take(e) =~= s.take(e));
    }
}

proof fn lemma_last_component_subrange(t: Seq<char>, b: int)
    requires
        0 <= b < t.len(),
        t.last() != '/',
        forall|k: int| b <= k < t.len() ==> t[k] != '/',
        b == 0 || t[b - 1] == '/',
    ensures
        last_component(t) == t.subrange(b, t.len() as int),
    decreases t.len(),
{
    if b == t.len() - 1 {
        if b == 0 {
            assert(t.drop_last().len() == 0);
            assert(last_component(t.drop_last()) == Seq::<char>::empty());
            assert(last_component(t) =~= t.subrange(b, t.len() as int));
        } else {
            assert(t.drop_last().last() == t[b - 1]);
            assert(last_component(t.drop_last()) == Seq::<char>::empty());
            assert(last_component(t) =~= t.subrange(b, t.len() as int));
        }
    } else {
        assert(t.drop_last().last() == t[t.len() - 2]);
        assert forall|k: int| b <= k < t.drop_last().len() implies t.drop_last()[k] != '/' by {
            assert(t.drop_last()[k] == t[k]);
        }
        lemma_last_component_subrange(t.drop_last(), b);
        assert(t.drop_last().subrange(b, t.drop_last().len() as int).push(t.last()) =~= t.subrange(
            b,
            t.len() as int,
        ));
    }
}

/// Find the field boundaries of the last component of `s`: `r.0` ends the
/// sequence once trailing separators are dropped, `r.1` starts its last
/// component.
fn name_bounds(s: &str) -> (r: (usize, usize))
    ensures
        r.1 <= r.0 <= s@.len(),
        trim_trailing_seps(s@) == s@.take(r.0 as int),
        forall|k: int| r.0 <= k < s@.len() ==> s@[k] == '/',
        r.0 == 0 || s@[r.0 - 1] != '/',
        forall|k: int| r.1 <= k < r.0 ==> s@[k] != '/',
        r.1 == 0 || s@[r.1 - 1] == '/',
        r.0 > 0 ==> r.1 < r.0,
{
    let n = s.unicode_len();
    let mut end: usize = n;
    while end > 0 && s.get_char(end - 1) == '/'
        invariant
            end <= n,
            n == s@.len(),
            forall|k: int| end <= k < n ==> s@[k] == '/',
        decreases end,
    {
        end = end - 1;
    }
    let mut start: usize = end;
    while start > 0 && s.get_char(start - 1) != '/'
        invariant
            start <= end <= n,
            n == s@.len(),
            end == 0 || s@[end - 1] != '/',
            forall|k: int| start <= k < end ==> s@[k] != '/',
        decreases start,
    {
        start = start - 1;
    }
    proof {
        lemma_trim_take(s@, end as int);
    }
    (end, start)
}

/// The display name of a path: its last component (trailing separators
/// ignored; a path made of separators alone names the root, `/`).
///
/// Separators are not further normalized: a path ending in `/.` names `.`.
pub fn extract_name(path: &String) -> (name: String)
    requires
        path@.len() > 0,
    ensures
        name@ == spec_extract_name(path@),
        name@.len() > 0,
{
    let s = path.as_str();
    let bounds = name_bounds(s);
    let end = bounds.0;
    let start = bounds.1;
    if end == 0 {
        let r = String::from_str("/");
        proof {
            reveal_strlit("/");
            assert(r@ =~= seq!['/']);
            assert(trim_trailing_seps(path@) =~= Seq::<char>::empty());
        }
        r
    } else {
        let part = s.substring_char(start, end);
        proof {
            let t = trim_trailing_seps(s@);
            assert(t.len() == end);
            assert(t.last() == s@[end - 1]);
            assert forall|k: int| start <= k < t.len() implies t[k] != '/' by {
                assert(t[k] == s@[k]);
            }
            if start > 0 {
                assert(t[start - 1] == s@[start - 1]);
            }
            lemma_last_component_subrange(t, start as int);
            assert(t.subrange(start as int, end as int) =~= s@.subrange(
                start as int,
                end as int,
            ));
        }
        part.to_owned()
    }
}

/// The parent of a path, with the meaning `std::path::Path::parent` gives it
/// for separator-delimited paths: `None` for the root and the empty path, the
/// empty path for a lone relative component, and otherwise the path up to the
/// last component.
pub fn parent_dir(path: &String) -> (r: Option<String>)
    ensures
        match r {
            Some(p) => spec_parent_dir(path@) == Some(p@),
            None => spec_parent_dir(path@) is None,
        },
{
    let s = path.as_str();
    let bounds = name_bounds(s);
    let end = bounds.0;
    let start = bounds.1;
    if end == 0 {
        proof {
            assert(trim_trailing_seps(path@).len() == 0);
        }
        None
    } else {
        proof {
            let t = trim_trailing_seps(s@);
            assert(t.len() == end);
            assert(t.last() == s@[end - 1]);
            assert forall|k: int| start <= k < t.len() implies t[k] != '/' by {
                assert(t[k] == s@[k]);
            }
            if start > 0 {
                assert(t[start - 1] == s@[start - 1]);
            }
            lemma_last_component_subrange(t, start as int);
            assert(t.take(t.len() - last_component(t).len()) =~= s@.take(start as int));
        }
        let head = s.substring_char(0, start);
        proof {
            assert(head@ =~= s@.take(start as int));
        }
        let head_bounds = name_bounds(head);
        let p_end = head_bounds.0;
        if start == 0 {
            let r = String::new();
            proof {
                assert(trim_trailing_seps(head@) =~= Seq::<char>::empty());
            }
            Some(r)
        } else if p_end == 0 {
            let r = String::from_str("/");
            proof {
                reveal_strlit("/");
                assert(r@ =~= seq!['/']);
                assert(trim_trailing_seps(head@).len() == 0);
            }
            Some(r)
        } else {
            let p = head.substring_char(0, p_end);
            proof {
                assert(p@ =~= head@.take(p_end as int));
            }
            Some(p.to_owned())
        }
    }
}

/// The display name of the repository whose control directory is at
/// `control_path`: the last component of the control directory's parent (the
/// working directory). `None` when the control path has no parent, or an
/// empty one — a control directory is assumed not to sit at the root.
pub fn repo_display_name(control_path: &String) -> (r: Option<String>)
    ensures
        match r {
            Some(n) => spec_parent_dir(control_path@) matches Some(p) && p.len() > 0 && n@
                == spec_extract_name(p) && n@.len() > 0,
            None => spec_parent_dir(control_path@) is None || (spec_parent_dir(control_path@)
                matches Some(p) && p.len() == 0),
        },
{
    match parent_dir(control_path) {
        Some(p) => {
            if p.as_str().unicode_len() == 0 {
                None
            } else {
                Some(extract_name(&p))
            }
        },
        None => None,
    }
}

} // verus!
