use vstd::prelude::*;
use vstd::string::StringExecFns;

verus! {

/// Whether a possibly unreadable tag name is the name looked for. Entries the
/// repository could not read as text match nothing.
pub open spec fn tag_matches(entry: Option<String>, name: Seq<char>) -> bool {
    entry matches Some(t) && t@ == name
}

/// Whether any tag name in the list matches `name`.
pub fn is_tag_match(tagnames: &Vec<Option<String>>, name: &String) -> (r: bool)
    ensures
        r == exists|i: int|
            0 <= i < tagnames@.len() && #[trigger] tag_matches(tagnames@[i], name@),
{
    let mut idx: usize = 0;
    while idx < tagnames.len()
        invariant
            idx <= tagnames@.len(),
            forall|i: int| 0 <= i < idx ==> !#[trigger] tag_matches(tagnames@[i], name@),
        decreases tagnames@.len() - idx,
    {
        match &tagnames[idx] {
            Some(t) => {
                if t.eq(name) {
                    proof {
                        assert(tag_matches(tagnames@[idx as int], name@));
                    }
                    return true;
                }
            },
            None => {},
        }
        proof {
            assert(!tag_matches(tagnames@[idx as int], name@));
        }
        idx += 1;
    }
    false
}

/// The fully qualified reference a short name stands for: a tag of that name
/// wins over a local branch of that name, and a name that is neither is
/// refused with a message naming it.
pub fn ref_path_for(name: &String, is_tag: bool, is_branch: bool) -> (r: Result<String, String>)
    ensures
        is_tag ==> (r matches Ok(p) && p@ == "refs/tags/"@ + name@),
        !is_tag && is_branch ==> (r matches Ok(p) && p@ == "refs/heads/"@ + name@),
        !is_tag && !is_branch ==> (r matches Err(m) && m@ == "Could not find matching tag or branch: '"@
            + name@ + "'"@),
{
    if is_tag {
        Ok(String::from_str("refs/tags/").concat(name.as_str()))
    } else if is_branch {
        Ok(String::from_str("refs/heads/").concat(name.as_str()))
    } else {
        Err(
            String::from_str("Could not find matching tag or branch: '").concat(
                name.as_str(),
            ).concat("'"),
        )
    }
}

/// The line that heads a local branch listing: the current branch marked with
/// a star, or the detached-head form naming the commit the head points at;
/// a detached head without a target is refused.
pub fn head_line(short: &String, is_branch: bool, target: &Option<String>) -> (r: Result<
    String,
    String,
>)
    ensures
        is_branch ==> (r matches Ok(l) && l@ == "* "@ + short@),
        !is_branch ==> (match *target {
            Some(oid) => r matches Ok(l) && l@ == "* ("@ + short@ + " detached at "@ + oid@
                + ")"@,
            None => r matches Err(m) && m@ == "Could not find head-target"@,
        }),
{
    if is_branch {
        Ok(String::from_str("* ").concat(short.as_str()))
    } else {
        match target {
            Some(oid) => Ok(
                String::from_str("* (").concat(short.as_str()).concat(" detached at ").concat(
                    oid.as_str(),
                ).concat(")"),
            ),
            None => Err(String::from_str("Could not find head-target")),
        }
    }
}

/// The branch names other than the current one, in their listed order.
pub open spec fn others_of(names: Seq<Seq<char>>, short: Seq<char>) -> Seq<Seq<char>>
    decreases names.len(),
{
    if names.len() == 0 {
        Seq::empty()
    } else {
        let rest = others_of(names.drop_last(), short);
        if names.last() == short {
            rest
        } else {
            rest.push(names.last())
        }
    }
}

/// Every listed branch name but the current one, kept in order.
pub fn branch_display_names(names: &Vec<String>, short: &String) -> (r: Vec<String>)
    ensures
        r.deep_view() == others_of(names.deep_view(), short@),
{
    let mut out: Vec<String> = Vec::new();
    let mut idx: usize = 0;
    proof {
        assert(out.deep_view() =~= others_of(names.deep_view().take(0), short@));
    }
    while idx < names.len()
        invariant
            idx <= names@.len(),
            out.deep_view() == others_of(names.deep_view().take(idx as int), short@),
        decreases names@.len() - idx,
    {
        let ghost prev = out.deep_view();
        let name = &names[idx];
        if !name.eq(short) {
            out.push(name.clone());
        }
        idx += 1;
        proof {
            let seqs = names.deep_view();
            assert(seqs.take(idx as int).drop_last() =~= seqs.take(idx as int - 1));
            assert(seqs.take(idx as int).last() == seqs[idx as int - 1]);
            if name@ != short@ {
                assert(out.deep_view() =~= prev.push(name@));
            }
        }
    }
    proof {
        assert(names.deep_view().take(names@.len() as int) =~= names.deep_view());
    }
    out
}

} // verus!
