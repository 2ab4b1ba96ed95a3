//! Recipe nesting: sub-recipe reachability, cycle checks and recipe codes.

use vstd::prelude::*;
use vstd::set_lib::lemma_len_subset;
use crate::text::{owned, chars_of, push_all, string_of, trim_seq, trim_str};
use crate::numtext::{i64_zero_padded, zero_padded};

verus! {

/// Whether `(a, b)` is one of the sub-recipe links: recipe `a` uses recipe `b`.
pub open spec fn is_edge(edges: Seq<(i64, i64)>, a: i64, b: i64) -> bool {
    exists|i: int| 0 <= i < edges.len() && #[trigger] edges[i] == (a, b)
}

/// Whether consecutive ids of `p` are linked.
pub open spec fn is_path(edges: Seq<(i64, i64)>, p: Seq<i64>) -> bool {
    forall|k: int| 0 <= k < p.len() - 1 ==> #[trigger] is_edge(edges, p[k], p[k + 1])
}

/// Whether `p` is a chain of sub-recipe links leading from `a` to `b`.
pub open spec fn is_path_from_to(edges: Seq<(i64, i64)>, p: Seq<i64>, a: i64, b: i64) -> bool {
    p.len() >= 1 && p[0] == a && p.last() == b && is_path(edges, p)
}

/// Whether `b` can be reached from `a` along sub-recipe links (every recipe reaches itself).
pub open spec fn reachable(edges: Seq<(i64, i64)>, a: i64, b: i64) -> bool {
    exists|p: Seq<i64>| #[trigger] is_path_from_to(edges, p, a, b)
}

/// Whether at most 50 recipes are reachable from `start`: some list of 50 ids holds them all.
pub open spec fn reach_bounded(edges: Seq<(i64, i64)>, start: i64) -> bool {
    exists|b: Seq<i64>|
        b.len() <= 50 && forall|v: i64| #[trigger] reachable(edges, start, v) ==> b.contains(v)
}

proof fn lemma_reach_self(edges: Seq<(i64, i64)>, a: i64)
    ensures
        reachable(edges, a, a),
{
    assert(is_path_from_to(edges, seq![a], a, a));
}

proof fn lemma_reach_step(edges: Seq<(i64, i64)>, a: i64, c: i64, b: i64)
    requires
        reachable(edges, a, c),
        is_edge(edges, c, b),
    ensures
        reachable(edges, a, b),
{
    let p = choose|p: Seq<i64>| #[trigger] is_path_from_to(edges, p, a, c);
    let q = p.push(b);
    assert forall|k: int| 0 <= k < q.len() - 1 implies #[trigger] is_edge(edges, q[k], q[k + 1]) by {
        if k < p.len() - 1 {
            assert(q[k] == p[k] && q[k + 1] == p[k + 1]);
            assert(is_edge(edges, p[k], p[k + 1]));
        } else {
            assert(q[k] == c && q[k + 1] == b);
        }
    }
    assert(is_path_from_to(edges, q, a, b));
}

/// A set of nodes that contains `a` and is closed under links holds every node
/// on a chain of links from `a`.
proof fn lemma_closed_contains(edges: Seq<(i64, i64)>, s: Seq<i64>, a: i64, p: Seq<i64>)
    requires
        s.contains(a),
        forall|x: i64, y: i64| s.contains(x) && #[trigger] is_edge(edges, x, y) ==> s.contains(y),
        p.len() >= 1,
        p[0] == a,
        is_path(edges, p),
    ensures
        s.contains(p.last()),
    decreases p.len(),
{
    if p.len() > 1 {
        let q = p.drop_last();
        assert forall|k: int| 0 <= k < q.len() - 1 implies #[trigger] is_edge(edges, q[k], q[k + 1]) by {
            assert(is_edge(edges, p[k], p[k + 1]));
        }
        lemma_closed_contains(edges, s, a, q);
        let k = p.len() - 2;
        assert(is_edge(edges, p[k], p[k + 1]));
    }
}

/// No duplicate-free list of more than 50 nodes reachable from `start` exists when
/// at most 50 nodes are reachable.
proof fn lemma_bound_excludes(edges: Seq<(i64, i64)>, start: i64, s: Seq<i64>)
    requires
        reach_bounded(edges, start),
        s.no_duplicates(),
        forall|k: int| 0 <= k < s.len() ==> reachable(edges, start, #[trigger] s[k]),
    ensures
        s.len() <= 50,
{
    broadcast use vstd::seq_lib::seq_to_set_is_finite;
    let b = choose|b: Seq<i64>|
        b.len() <= 50 && forall|v: i64| #[trigger] reachable(edges, start, v) ==> b.contains(v);
    assert(s.to_set().subset_of(b.to_set())) by {
        assert forall|x: i64| s.to_set().contains(x) implies b.to_set().contains(x) by {
            let k = choose|k: int| 0 <= k < s.len() && s[k] == x;
            assert(reachable(edges, start, s[k]));
        }
    }
    s.unique_seq_to_set();
    b.lemma_cardinality_of_set();
    lemma_len_subset(s.to_set(), b.to_set());
}

fn contains_id(v: &Vec<i64>, x: i64) -> (res: bool)
    ensures
        res == v@.contains(x),
{
    let mut i: usize = 0;
    while i < v.len()
        invariant
            i <= v.len(),
            forall|j: int| 0 <= j < i ==> v@[j] != x,
        decreases v.len() - i,
    {
        if v[i] == x {
            return true;
        }
        i = i + 1;
    }
    false
}

/// Whether `ancestor_id` can be reached from `recipe_id` along the sub-recipe
/// links `edges` (pairs of using recipe and used recipe). The search is depth
/// first and gives up, answering `false`, once it has expanded more than 50
/// distinct recipes; it is therefore exact whenever at most 50 recipes are
/// reachable from `recipe_id`.
pub fn recipe_has_ancestor(edges: &Vec<(i64, i64)>, recipe_id: i64, ancestor_id: i64) -> (res: bool)
    ensures
        res ==> reachable(edges@, recipe_id, ancestor_id),
        reach_bounded(edges@, recipe_id) ==> res == reachable(edges@, recipe_id, ancestor_id),
{
    let ghost e = edges@;
    let mut visited: Vec<i64> = Vec::new();
    let mut queue: Vec<i64> = Vec::new();
    queue.push(recipe_id);
    assert(queue@[0] == recipe_id);
    proof {
        lemma_reach_self(e, recipe_id);
    }
    loop
        invariant
            e == edges@,
            visited@.len() <= 50,
            visited@.no_duplicates(),
            forall|k: int| 0 <= k < queue@.len() ==> reachable(e, recipe_id, #[trigger] queue@[k]),
            forall|k: int| 0 <= k < visited@.len() ==> reachable(e, recipe_id, #[trigger] visited@[k]),
            !visited@.contains(ancestor_id),
            visited@.contains(recipe_id) || queue@.contains(recipe_id),
            forall|x: i64, y: i64|
                visited@.contains(x) && #[trigger] is_edge(e, x, y) ==> visited@.contains(y)
                    || queue@.contains(y),
        ensures
            queue@.len() == 0,
            !visited@.contains(ancestor_id),
            visited@.contains(recipe_id),
            forall|x: i64, y: i64|
                visited@.contains(x) && #[trigger] is_edge(e, x, y) ==> visited@.contains(y),
        decreases 50 - visited@.len(), queue@.len(),
    {
        let ghost q0 = queue@;
        let current = match queue.pop() {
            Some(c) => c,
            None => {
                break;
            },
        };
        assert(q0 =~= queue@.push(current));
        assert(reachable(e, recipe_id, current)) by {
            assert(q0[q0.len() - 1] == current);
        }
        if current == ancestor_id {
            return true;
        }
        if contains_id(&visited, current) {
            assert forall|x: i64, y: i64|
                visited@.contains(x) && #[trigger] is_edge(e, x, y) implies visited@.contains(y)
                    || queue@.contains(y) by {
                if q0.contains(y) && !visited@.contains(y) {
                    let k = choose|k: int| 0 <= k < q0.len() && q0[k] == y;
                    if k < queue@.len() {
                        assert(queue@[k] == y);
                    }
                }
            }
            assert(visited@.contains(recipe_id) || queue@.contains(recipe_id)) by {
                if q0.contains(recipe_id) && !visited@.contains(recipe_id) {
                    let k = choose|k: int| 0 <= k < q0.len() && q0[k] == recipe_id;
                    if k < queue@.len() {
                        assert(queue@[k] == recipe_id);
                    }
                }
            }
            continue;
        }
        let ghost v0 = visited@;
        visited.push(current);
        assert(visited@.no_duplicates()) by {
            assert forall|a: int, b: int| 0 <= a < b < visited@.len() implies visited@[a] != visited@[b] by {
                if b == v0.len() {
                    assert(v0.contains(visited@[a]));
                }
            }
        }
        if visited.len() > 50 {
            proof {
                if reach_bounded(e, recipe_id) {
                    lemma_bound_excludes(e, recipe_id, visited@);
                }
            }
            return false;
        }
        let ghost qa = queue@;
        let mut i: usize = 0;
        while i < edges.len()
            invariant
                e == edges@,
                i <= edges.len(),
                queue@.len() >= qa.len(),
                forall|k: int| 0 <= k < qa.len() ==> queue@[k] == qa[k],
                forall|k: int| 0 <= k < queue@.len() ==> reachable(e, recipe_id, #[trigger] queue@[k]),
                reachable(e, recipe_id, current),
                forall|j: int| 0 <= j < i && (#[trigger] e[j]).0 == current ==> queue@.contains(e[j].1),
            decreases edges.len() - i,
        {
            let (p, c) = edges[i];
            if p == current {
                let ghost qb = queue@;
                queue.push(c);
                proof {
                    assert(is_edge(e, current, c)) by {
                        assert(e[i as int] == (current, c));
                    }
                    lemma_reach_step(e, recipe_id, current, c);
                    assert forall|j: int| 0 <= j < i + 1 && (#[trigger] e[j]).0 == current implies queue@.contains(e[j].1) by {
                        if j < i {
                            let k = choose|k: int| 0 <= k < qb.len() && qb[k] == e[j].1;
                            assert(queue@[k] == e[j].1);
                        } else {
                            assert(queue@[queue@.len() - 1] == c);
                        }
                    }
                }
            }
            i = i + 1;
        }
        proof {
            assert forall|x: i64, y: i64|
                visited@.contains(x) && #[trigger] is_edge(e, x, y) implies visited@.contains(y)
                    || queue@.contains(y) by {
                let j = choose|j: int| 0 <= j < e.len() && #[trigger] e[j] == (x, y);
                assert(visited@ == v0.push(current));
                if x == current {
                    assert(e[j].0 == current);
                    assert(queue@.contains(e[j].1));
                } else {
                    let kx = choose|kx: int| 0 <= kx < visited@.len() && visited@[kx] == x;
                    assert(kx < v0.len());
                    assert(v0[kx] == x);
                    assert(v0.contains(x));
                    assert(v0.contains(y) || q0.contains(y));
                    if v0.contains(y) {
                        let k = choose|k: int| 0 <= k < v0.len() && v0[k] == y;
                        assert(visited@[k] == y);
                    } else {
                        let k = choose|k: int| 0 <= k < q0.len() && q0[k] == y;
                        if k < qa.len() {
                            assert(queue@[k] == y);
                        } else {
                            assert(y == current);
                            assert(visited@[visited@.len() - 1] == y);
                        }
                    }
                }
            }
            assert(visited@.contains(recipe_id) || queue@.contains(recipe_id)) by {
                if v0.contains(recipe_id) {
                    let k = choose|k: int| 0 <= k < v0.len() && v0[k] == recipe_id;
                    assert(visited@[k] == recipe_id);
                } else if q0.contains(recipe_id) {
                    let k = choose|k: int| 0 <= k < q0.len() && q0[k] == recipe_id;
                    if k < qa.len() {
                        assert(queue@[k] == recipe_id);
                    } else {
                        assert(visited@[visited@.len() - 1] == recipe_id);
                    }
                }
            }
            assert(!visited@.contains(ancestor_id)) by {
                if visited@.contains(ancestor_id) {
                    let k = choose|k: int| 0 <= k < visited@.len() && visited@[k] == ancestor_id;
                    if k < v0.len() {
                        assert(v0.contains(ancestor_id));
                    }
                }
            }
            assert forall|k: int| 0 <= k < visited@.len() implies reachable(e, recipe_id, #[trigger] visited@[k]) by {
                if k < v0.len() {
                    assert(visited@[k] == v0[k]);
                }
            }
        }
    }
    proof {
        assert forall|p: Seq<i64>| !#[trigger] is_path_from_to(e, p, recipe_id, ancestor_id) by {
            if is_path_from_to(e, p, recipe_id, ancestor_id) {
                lemma_closed_contains(e, visited@, recipe_id, p);
            }
        }
    }
    false
}


/// Whether linking `ref_id` as a sub-recipe of `recipe_id` would close a cycle:
/// the recipe itself, or a recipe from which `recipe_id` is reachable.
pub fn would_create_recipe_cycle(edges: &Vec<(i64, i64)>, recipe_id: i64, ref_id: i64) -> (res: bool)
    ensures
        res ==> reachable(edges@, ref_id, recipe_id),
        reach_bounded(edges@, ref_id) ==> res == reachable(edges@, ref_id, recipe_id),
{
    if ref_id == recipe_id {
        proof {
            lemma_reach_self(edges@, recipe_id);
        }
        return true;
    }
    recipe_has_ancestor(edges, ref_id, recipe_id)
}


/// Checks a new recipe line before it is stored: a sub-recipe may be neither the
/// recipe itself nor a recipe that already uses it, directly or not.
pub fn check_recipe_item(edges: &Vec<(i64, i64)>, recipe_id: i64, item_type: &str, ref_id: i64) -> (res: Result<(), String>)
    ensures
        item_type@ != "sub_recipe"@ ==> res is Ok,
        item_type@ == "sub_recipe"@ && ref_id == recipe_id ==> res is Err && res->Err_0@
            == "不能將配方添加為自身的子配方"@,
        item_type@ == "sub_recipe"@ && ref_id != recipe_id ==> {
            &&& res is Err ==> res->Err_0@ == "添加此子配方會產生循環引用，請檢查配方嵌套關係"@
                && reachable(edges@, ref_id, recipe_id)
            &&& reach_bounded(edges@, ref_id) ==> (res is Err <==> reachable(edges@, ref_id, recipe_id))
        },
{
    if crate::text::str_eq(item_type, "sub_recipe") {
        if ref_id == recipe_id {
            return Err(owned("不能將配方添加為自身的子配方"));
        }
        if recipe_has_ancestor(edges, ref_id, recipe_id) {
            return Err(owned("添加此子配方會產生循環引用，請檢查配方嵌套關係"));
        }
    }
    Ok(())
}

/// The next generated recipe code: `RCP` and one more than the highest number
/// in use, zero-padded to three digits.
pub open spec fn next_recipe_code_text(max_num: Option<i64>) -> Seq<char> {
    let n = match max_num { Some(m) => m as int, None => 0 };
    "RCP"@ + zero_padded(n + 1, 3)
}

/// The next generated recipe code from the highest number in use, if any.
pub fn generate_recipe_code(max_num: Option<i64>) -> (res: String)
    requires
        match max_num { Some(m) => m < i64::MAX, None => true },
    ensures
        res@ == next_recipe_code_text(max_num),
{
    let n: i64 = match max_num {
        Some(m) => m,
        None => 0,
    };
    let digits = i64_zero_padded(n + 1, 3);
    let mut v = chars_of("RCP");
    push_all(&mut v, &digits);
    string_of(&v)
}

/// A recipe's name, trimmed; an empty name is refused.
pub fn validate_recipe_name(name: &str) -> (res: Result<String, String>)
    ensures
        match res {
            Ok(n) => n@ == trim_seq(name@) && n@.len() > 0,
            Err(msg) => trim_seq(name@).len() == 0 && msg@ == "配方名稱不能為空"@,
        },
{
    let t = trim_str(name);
    if t.as_str().is_empty() {
        Err(owned("配方名稱不能為空"))
    } else {
        Ok(t)
    }
}

/// The code to try for a new recipe: the given code trimmed, or a generated one
/// when it is blank.
pub fn recipe_code_candidate(code: &str, max_num: i64) -> (res: String)
    requires
        max_num < i64::MAX,
    ensures
        trim_seq(code@).len() == 0 ==> res@ == next_recipe_code_text(Some(max_num)),
        trim_seq(code@).len() > 0 ==> res@ == trim_seq(code@),
{
    let t = trim_str(code);
    if t.as_str().is_empty() {
        generate_recipe_code(Some(max_num))
    } else {
        t
    }
}

/// Whether a failed insert should be retried with a fresh code: only on a
/// duplicate recipe code, and only for generated or `RCP` codes.
pub fn should_retry_recipe_code(error: &str, code: &str) -> (res: bool)
    ensures
        res == (crate::text::seq_contains(error@, "UNIQUE constraint failed: recipes.code"@) && (
        trim_seq(code@).len() == 0 || crate::text::seq_starts_with(trim_seq(code@), "RCP"@))),
{
    let t = trim_str(code);
    crate::text::str_contains(error, "UNIQUE constraint failed: recipes.code") && (t.as_str().is_empty()
        || crate::text::str_starts_with(t.as_str(), "RCP"))
}


/// No recipe reaches, through its sub-recipes, a recipe that uses it: the
/// sub-recipe links form no cycle.
pub open spec fn no_cycle(edges: Seq<(i64, i64)>) -> bool {
    forall|a: i64, b: i64| #[trigger] is_edge(edges, a, b) ==> !reachable(edges, b, a)
}

proof fn lemma_reach_prepend(edges: Seq<(i64, i64)>, x: i64, z: i64, y: i64)
    requires
        is_edge(edges, x, z),
        reachable(edges, z, y),
    ensures
        reachable(edges, x, y),
{
    let p = choose|p: Seq<i64>| #[trigger] is_path_from_to(edges, p, z, y);
    let q = seq![x] + p;
    assert forall|k: int| 0 <= k < q.len() - 1 implies #[trigger] is_edge(edges, q[k], q[k + 1]) by {
        if k == 0 {
            assert(q[0] == x && q[1] == z);
        } else {
            assert(q[k] == p[k - 1] && q[k + 1] == p[k]);
            assert(is_edge(edges, p[k - 1], p[(k - 1) + 1]));
        }
    }
    assert(is_path_from_to(edges, q, x, y));
}

/// Reachability is transitive.
pub proof fn lemma_reach_trans(edges: Seq<(i64, i64)>, x: i64, y: i64, z: i64)
    requires
        reachable(edges, x, y),
        reachable(edges, y, z),
    ensures
        reachable(edges, x, z),
{
    let p1 = choose|p: Seq<i64>| #[trigger] is_path_from_to(edges, p, x, y);
    let p2 = choose|p: Seq<i64>| #[trigger] is_path_from_to(edges, p, y, z);
    let q = p1 + p2.drop_first();
    assert forall|k: int| 0 <= k < q.len() - 1 implies #[trigger] is_edge(edges, q[k], q[k + 1]) by {
        if k < p1.len() - 1 {
            assert(q[k] == p1[k] && q[k + 1] == p1[k + 1]);
            assert(is_edge(edges, p1[k], p1[k + 1]));
        } else {
            let m = k - (p1.len() - 1);
            assert(q[k] == p2[m] && q[k + 1] == p2[m + 1]);
            assert(is_edge(edges, p2[m], p2[m + 1]));
        }
    }
    if p2.len() == 1 {
        assert(q =~= p1);
    }
    assert(is_path_from_to(edges, q, x, z));
}

proof fn lemma_edge_push(edges: Seq<(i64, i64)>, r: i64, f: i64, a: i64, b: i64)
    requires
        is_edge(edges.push((r, f)), a, b),
    ensures
        is_edge(edges, a, b) || (a == r && b == f),
{
    let e2 = edges.push((r, f));
    let i = choose|i: int| 0 <= i < e2.len() && #[trigger] e2[i] == (a, b);
    if i < edges.len() {
        assert(edges[i] == (a, b));
    }
}

/// A chain of links after adding `r -> f` either avoids the new link, or its part
/// before the first use of the new link leads from `x` to `r`.
proof fn lemma_split_first(edges: Seq<(i64, i64)>, r: i64, f: i64, p: Seq<i64>, x: i64, y: i64)
    requires
        is_path_from_to(edges.push((r, f)), p, x, y),
    ensures
        reachable(edges, x, y) || reachable(edges, x, r),
    decreases p.len(),
{
    let e2 = edges.push((r, f));
    if p.len() == 1 {
        lemma_reach_self(edges, x);
    } else {
        let q = p.drop_last();
        let k = p.len() - 2;
        assert forall|j: int| 0 <= j < q.len() - 1 implies #[trigger] is_edge(e2, q[j], q[j + 1]) by {
            assert(is_edge(e2, p[j], p[j + 1]));
        }
        assert(is_path_from_to(e2, q, x, p[k]));
        lemma_split_first(edges, r, f, q, x, p[k]);
        assert(is_edge(e2, p[k], p[k + 1]));
        lemma_edge_push(edges, r, f, p[k], p[k + 1]);
        if reachable(edges, x, p[k]) && is_edge(edges, p[k], y) {
            lemma_reach_step(edges, x, p[k], y);
        }
    }
}

/// A chain of links after adding `r -> f` either avoids the new link, or its part
/// after the last use of the new link leads from `f` to `y`.
proof fn lemma_split_last(edges: Seq<(i64, i64)>, r: i64, f: i64, p: Seq<i64>, x: i64, y: i64)
    requires
        is_path_from_to(edges.push((r, f)), p, x, y),
    ensures
        reachable(edges, x, y) || reachable(edges, f, y),
    decreases p.len(),
{
    let e2 = edges.push((r, f));
    if p.len() == 1 {
        lemma_reach_self(edges, x);
    } else {
        let q = p.drop_first();
        assert forall|j: int| 0 <= j < q.len() - 1 implies #[trigger] is_edge(e2, q[j], q[j + 1]) by {
            assert(q[j] == p[j + 1] && q[j + 1] == p[j + 2]);
            assert(is_edge(e2, p[j + 1], p[(j + 1) + 1]));
        }
        assert(is_path_from_to(e2, q, p[1], y));
        lemma_split_last(edges, r, f, q, p[1], y);
        assert(is_edge(e2, p[0int], p[0int + 1]));
        lemma_edge_push(edges, r, f, x, p[1]);
        if reachable(edges, p[1], y) && is_edge(edges, x, p[1]) {
            lemma_reach_prepend(edges, x, p[1], y);
        }
    }
}

/// Adding a sub-recipe link that the cycle check accepts keeps the recipe
/// graph free of cycles.
pub proof fn law_checked_link_keeps_acyclic(edges: Seq<(i64, i64)>, recipe_id: i64, ref_id: i64)
    requires
        no_cycle(edges),
        !reachable(edges, ref_id, recipe_id),
    ensures
        no_cycle(edges.push((recipe_id, ref_id))),
{
    let e2 = edges.push((recipe_id, ref_id));
    assert forall|a: i64, b: i64| #[trigger] is_edge(e2, a, b) implies !reachable(e2, b, a) by {
        if reachable(e2, b, a) {
            let p = choose|p: Seq<i64>| #[trigger] is_path_from_to(e2, p, b, a);
            lemma_edge_push(edges, recipe_id, ref_id, a, b);
            lemma_split_first(edges, recipe_id, ref_id, p, b, a);
            lemma_split_last(edges, recipe_id, ref_id, p, b, a);
            if is_edge(edges, a, b) {
                if !reachable(edges, b, a) {
                    // the chain from b to a uses the new link: f ->* a -> b ->* r
                    lemma_reach_step(edges, ref_id, a, b);
                    lemma_reach_trans(edges, ref_id, b, recipe_id);
                }
            }
        }
    }
}

/// What follows one attempt to store a new recipe under a candidate code.
pub enum CodeAttempt {
    /// The recipe was stored under this id.
    Created(i64),
    /// The generated code was taken meanwhile: try again with a fresh one.
    Retry,
    /// The recipe is refused with this message.
    Failed(String),
}

/// How many codes are tried before giving up.
pub open spec fn max_code_attempts() -> int {
    5
}

/// Decides what follows attempt number `attempt` (from 0) to store a recipe
/// whose code was given as `code`, the insert having given `outcome`: a taken
/// generated (or `RCP`) code is retried up to five attempts in all, any other
/// failure is passed on.
pub fn after_code_attempt(attempt: u32, outcome: Result<i64, String>, code: &str) -> (res: CodeAttempt)
    ensures
        match outcome {
            Ok(id) => res == CodeAttempt::Created(id),
            Err(e) => {
                let retry = crate::text::seq_contains(e@, "UNIQUE constraint failed: recipes.code"@) && (
                trim_seq(code@).len() == 0 || crate::text::seq_starts_with(trim_seq(code@), "RCP"@));
                if !retry {
                    res == CodeAttempt::Failed(e)
                } else if attempt + 1 < max_code_attempts() {
                    res is Retry
                } else {
                    res is Failed && res->Failed_0@ == "生成配方編號失敗，請重試"@
                }
            },
        },
{
    match outcome {
        Ok(id) => CodeAttempt::Created(id),
        Err(e) => {
            if !should_retry_recipe_code(e.as_str(), code) {
                CodeAttempt::Failed(e)
            } else if attempt < 4 {
                CodeAttempt::Retry
            } else {
                CodeAttempt::Failed(owned("生成配方編號失敗，請重試"))
            }
        },
    }
}

} // verus!
