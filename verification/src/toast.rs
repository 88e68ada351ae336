//! Toast notifications: short messages stacked at the corner of the
//! console, each with an id by which its timer removes it.
use vstd::prelude::*;

use crate::text::string_eq_str;

verus! {

/// The look of a toast.
#[derive(Debug, Clone, Copy, PartialEq, Eq, Structural)]
pub enum ToastKind {
    Success,
    Error,
    Progress,
}

/// A notification.  A named toast can be updated in place by name.
#[derive(Debug)]
pub struct Toast {
    pub id: u64,
    pub name: Option<String>,
    pub message: String,
    pub kind: ToastKind,
}

/// The mathematical content of a [`Toast`].
pub struct ToastView {
    pub id: u64,
    pub name: Option<Seq<char>>,
    pub message: Seq<char>,
    pub kind: ToastKind,
}

/// The view of an optional string.
pub open spec fn opt_view(s: Option<String>) -> Option<Seq<char>> {
    match s {
        Some(x) => Some(x@),
        None => None,
    }
}

impl View for Toast {
    type V = ToastView;

    open spec fn view(&self) -> ToastView {
        ToastView { id: self.id, name: opt_view(self.name), message: self.message@, kind: self.kind }
    }
}

/// The views of a list of toasts.
pub open spec fn toast_views(s: Seq<Toast>) -> Seq<ToastView> {
    s.map_values(|t: Toast| t@)
}

/// `i` is the first index of `s` holding a toast named `name`.
pub open spec fn first_toast_named(s: Seq<ToastView>, name: Seq<char>, i: int) -> bool {
    0 <= i < s.len() && s[i].name == Some(name) && forall|j: int| 0 <= j < i ==> s[j].name != Some(name)
}

/// Some toast of `s` is named `name`.
pub open spec fn has_toast_named(s: Seq<ToastView>, name: Seq<char>) -> bool {
    exists|i: int| 0 <= i < s.len() && #[trigger] s[i].name == Some(name)
}

/// `s` without the toasts with id `id`, in order.
pub open spec fn without_id(s: Seq<ToastView>, id: u64) -> Seq<ToastView>
    decreases s.len(),
{
    if s.len() == 0 {
        s
    } else {
        let rest = without_id(s.drop_last(), id);
        if s.last().id == id {
            rest
        } else {
            rest.push(s.last())
        }
    }
}

/// Ids in a list are pairwise distinct and all below `next`.
pub open spec fn ids_fresh(s: Seq<ToastView>, next: u64) -> bool {
    &&& forall|i: int, j: int|
        0 <= i < s.len() && 0 <= j < s.len() && i != j ==> #[trigger] s[i].id != #[trigger] s[j].id
    &&& forall|i: int| 0 <= i < s.len() ==> #[trigger] s[i].id < next
}

/// The toasts on screen and the id the next new toast gets.
#[derive(Debug)]
pub struct Toaster {
    items: Vec<Toast>,
    next_id: u64,
}

impl Toaster {
    /// The toasts on screen, oldest first.
    pub closed spec fn items(&self) -> Seq<ToastView> {
        toast_views(self.items@)
    }

    /// The id the next new toast gets.
    pub closed spec fn next(&self) -> u64 {
        self.next_id
    }

    #[verifier::type_invariant]
    spec fn fresh_ids(&self) -> bool {
        ids_fresh(self.items(), self.next_id)
    }

    /// No toasts; the first gets id 0.
    pub fn new() -> (r: Self)
        ensures
            r.items() == Seq::<ToastView>::empty(),
            r.next() == 0,
    {
        let r = Toaster { items: Vec::new(), next_id: 0 };
        assert(r.items() =~= Seq::<ToastView>::empty());
        r
    }

    /// The id the next new toast gets.
    pub fn next_id(&self) -> (r: u64)
        ensures
            r == self.next(),
    {
        self.next_id
    }

    /// The toasts on screen, oldest first.
    pub fn toasts(&self) -> (r: &Vec<Toast>)
        ensures
            toast_views(r@) == self.items(),
            ids_fresh(self.items(), self.next()),
    {
        proof {
            use_type_invariant(self);
        }
        &self.items
    }

    /// Appends a new toast under the next id and returns that id.
    fn push_new(&mut self, name: Option<String>, message: String, kind: ToastKind) -> (id: u64)
        requires
            old(self).next() < u64::MAX,
        ensures
            id == old(self).next(),
            final(self).next() == old(self).next() + 1,
            final(self).items() == old(self).items().push(
                ToastView { id, name: opt_view(name), message: message@, kind },
            ),
    {
        proof {
            use_type_invariant(&*self);
        }
        let id = self.next_id;
        let t = Toast { id, name, message, kind };
        let ghost old_items = self.items();
        let mut items: Vec<Toast> = Vec::new();
        std::mem::swap(&mut items, &mut self.items);
        proof {
            let u = toast_views(items@.push(t));
            assert(u =~= old_items.push(t@));
            assert forall|i: int, j: int| 0 <= i < u.len() && 0 <= j < u.len() && i != j implies #[trigger] u[i].id
                != #[trigger] u[j].id by {
                if i < old_items.len() && j < old_items.len() {
                    assert(u[i] == old_items[i] && u[j] == old_items[j]);
                } else if i < old_items.len() {
                    assert(u[i] == old_items[i]);
                } else {
                    assert(u[j] == old_items[j]);
                }
            }
            assert forall|i: int| 0 <= i < u.len() implies #[trigger] u[i].id < id + 1 by {
                if i < old_items.len() {
                    assert(u[i] == old_items[i]);
                }
            }
        }
        items.push(t);
        self.next_id = id + 1;
        self.items = items;
        id
    }

    /// Shows a success message; returns its id, by which it is later
    /// expired.
    pub fn success(&mut self, message: String) -> (id: u64)
        requires
            old(self).next() < u64::MAX,
        ensures
            id == old(self).next(),
            final(self).next() == old(self).next() + 1,
            final(self).items() == old(self).items().push(
                ToastView { id, name: None, message: message@, kind: ToastKind::Success },
            ),
    {
        self.push_new(None, message, ToastKind::Success)
    }

    /// Shows an error message; returns its id, by which it is later
    /// expired.
    pub fn error(&mut self, message: String) -> (id: u64)
        requires
            old(self).next() < u64::MAX,
        ensures
            id == old(self).next(),
            final(self).next() == old(self).next() + 1,
            final(self).items() == old(self).items().push(
                ToastView { id, name: None, message: message@, kind: ToastKind::Error },
            ),
    {
        self.push_new(None, message, ToastKind::Error)
    }

    /// The index of the first toast named `name`, if any.
    fn find_named(&self, name: &String) -> (r: Option<usize>)
        ensures
            match r {
                Some(i) => first_toast_named(self.items(), name@, i as int),
                None => !has_toast_named(self.items(), name@),
            },
    {
        let ghost s = self.items();
        let n: usize = self.items.len();
        let mut i: usize = 0;
        while i < n
            invariant
                n == self.items@.len(),
                s == self.items(),
                s.len() == n,
                i <= n,
                forall|j: int| 0 <= j < i ==> s[j].name != Some(name@),
            decreases n - i,
        {
            assert(s[i as int] == self.items@[i as int]@);
            let hit = match &self.items[i].name {
                Some(x) => string_eq_str(x, name.as_str()),
                None => false,
            };
            if hit {
                return Some(i);
            }
            i = i + 1;
        }
        assert(!has_toast_named(s, name@)) by {
            if has_toast_named(s, name@) {
                let j = choose|j: int| 0 <= j < s.len() && #[trigger] s[j].name == Some(name@);
                assert(s[j].name != Some(name@));
            }
        }
        None
    }

    /// Rewrites the toast at index `i`.
    fn rewrite(&mut self, i: usize, name: Option<String>, message: String, kind: ToastKind)
        requires
            i < old(self).items().len(),
        ensures
            final(self).next() == old(self).next(),
            final(self).items() == old(self).items().update(
                i as int,
                ToastView {
                    id: old(self).items()[i as int].id,
                    name: opt_view(name),
                    message: message@,
                    kind,
                },
            ),
    {
        proof {
            use_type_invariant(&*self);
        }
        let ghost old_items = self.items();
        let id = self.items[i].id;
        assert(id == old_items[i as int].id);
        let t = Toast { id, name, message, kind };
        let mut items: Vec<Toast> = Vec::new();
        std::mem::swap(&mut items, &mut self.items);
        proof {
            let u = toast_views(items@.update(i as int, t));
            assert(u =~= old_items.update(i as int, t@));
            assert forall|a: int, b: int| 0 <= a < u.len() && 0 <= b < u.len() && a != b implies #[trigger] u[a].id
                != #[trigger] u[b].id by {
                assert(u[a].id == old_items[a].id);
                assert(u[b].id == old_items[b].id);
            }
            assert forall|a: int| 0 <= a < u.len() implies #[trigger] u[a].id < old(self).next() by {
                assert(u[a].id == old_items[a].id);
            }
        }
        items.set(i, t);
        self.items = items;
    }

    /// Shows `message` under `name`: the first toast of that name is
    /// rewritten in place, or a new named toast is added.
    pub fn upsert(&mut self, name: String, message: String, kind: ToastKind)
        requires
            old(self).next() < u64::MAX,
        ensures
            has_toast_named(old(self).items(), name@) ==> exists|i: int|
                first_toast_named(old(self).items(), name@, i) && final(self).next() == old(self).next()
                    && final(self).items() == old(self).items().update(
                    i,
                    ToastView { message: message@, kind, ..old(self).items()[i] },
                ),
            !has_toast_named(old(self).items(), name@) ==> final(self).next() == old(self).next() + 1
                && final(self).items() == old(self).items().push(
                ToastView { id: old(self).next(), name: Some(name@), message: message@, kind },
            ),
    {
        match self.find_named(&name) {
            Some(i) => {
                assert(self.items()[i as int].name == Some(name@));
                self.rewrite(i, Some(name), message, kind);
            },
            None => {
                self.push_new(Some(name), message, kind);
            },
        }
    }

    /// Settles the toast named `name` with a final `message`: the first
    /// toast of that name is rewritten and loses its name, or a new unnamed
    /// toast is added.  Returns the settled toast's id, by which it is later
    /// expired.
    pub fn resolve(&mut self, name: &String, message: String, kind: ToastKind) -> (id: u64)
        requires
            old(self).next() < u64::MAX,
        ensures
            has_toast_named(old(self).items(), name@) ==> exists|i: int|
                first_toast_named(old(self).items(), name@, i) && id == old(self).items()[i].id
                    && final(self).next() == old(self).next() && final(self).items() == old(
                    self,
                ).items().update(
                    i,
                    ToastView { id, name: None, message: message@, kind },
                ),
            !has_toast_named(old(self).items(), name@) ==> id == old(self).next() && final(self).next()
                == old(self).next() + 1 && final(self).items() == old(self).items().push(
                ToastView { id, name: None, message: message@, kind },
            ),
    {
        match self.find_named(name) {
            Some(i) => {
                let id = self.items[i].id;
                assert(id == self.items()[i as int].id);
                self.rewrite(i, None, message, kind);
                id
            },
            None => self.push_new(None, message, kind),
        }
    }

    /// Takes the toast with id `id` off the screen (its timer ran out).
    pub fn expire(&mut self, id: u64)
        ensures
            final(self).next() == old(self).next(),
            final(self).items() == without_id(old(self).items(), id),
    {
        proof {
            use_type_invariant(&*self);
        }
        let ghost s = self.items();
        let n: usize = self.items.len();
        let mut kept: Vec<Toast> = Vec::new();
        let mut items: Vec<Toast> = Vec::new();
        std::mem::swap(&mut items, &mut self.items);
        assert(toast_views(items@) == s);
        let mut i: usize = 0;
        while i < n
            invariant
                n == items@.len(),
                s == toast_views(items@),
                s.len() == n,
                i <= n,
                toast_views(kept@) == without_id(s.take(i as int), id),
            decreases n - i,
        {
            proof {
                assert(s.take(i as int + 1).drop_last() =~= s.take(i as int));
                assert(s.take(i as int + 1).last() == items@[i as int]@);
            }
            if items[i].id != id {
                let t = Toast {
                    id: items[i].id,
                    name: items[i].name.clone(),
                    message: items[i].message.clone(),
                    kind: items[i].kind,
                };
                proof {
                    assert(opt_view(t.name) == opt_view(items@[i as int].name));
                    assert(toast_views(kept@.push(t)) =~= toast_views(kept@).push(t@));
                }
                kept.push(t);
            }
            i = i + 1;
        }
        assert(s.take(n as int) =~= s);
        proof {
            lemma_without_id_sub(s, id, self.next_id);
        }
        self.items = kept;
    }
}

/// Removing toasts keeps ids distinct and below the bound, and leaves no
/// toast with the removed id.
pub proof fn lemma_without_id_sub(s: Seq<ToastView>, id: u64, next: u64)
    requires
        ids_fresh(s, next),
    ensures
        ids_fresh(without_id(s, id), next),
        forall|i: int| 0 <= i < without_id(s, id).len() ==> #[trigger] without_id(s, id)[i].id != id,
        forall|i: int|
            0 <= i < without_id(s, id).len() ==> s.contains(#[trigger] without_id(s, id)[i]),
    decreases s.len(),
{
    if s.len() > 0 {
        let p = s.drop_last();
        assert forall|i: int, j: int| 0 <= i < p.len() && 0 <= j < p.len() && i != j implies #[trigger] p[i].id
            != #[trigger] p[j].id by {
            assert(p[i] == s[i] && p[j] == s[j]);
        }
        assert forall|i: int| 0 <= i < p.len() implies #[trigger] p[i].id < next by {
            assert(p[i] == s[i]);
        }
        lemma_without_id_sub(p, id, next);
        let rest = without_id(p, id);
        assert forall|i: int| 0 <= i < rest.len() implies s.contains(#[trigger] rest[i]) by {
            assert(p.contains(rest[i]));
            let j = choose|j: int| 0 <= j < p.len() && p[j] == rest[i];
            assert(s[j] == p[j]);
        }
        if s.last().id != id {
            let w = rest.push(s.last());
            assert(s[s.len() - 1] == s.last());
            assert forall|i: int| 0 <= i < w.len() implies s.contains(#[trigger] w[i]) by {
                if i < rest.len() {
                    assert(w[i] == rest[i]);
                }
            }
            assert forall|i: int, j: int| 0 <= i < w.len() && 0 <= j < w.len() && i != j implies #[trigger] w[i].id
                != #[trigger] w[j].id by {
                if i < rest.len() && j < rest.len() {
                    assert(w[i] == rest[i] && w[j] == rest[j]);
                } else if i < rest.len() {
                    assert(w[i] == rest[i]);
                    let k = choose|k: int| 0 <= k < p.len() && p[k] == rest[i];
                    assert(s[k] == p[k]);
                    assert(k != s.len() - 1);
                } else {
                    assert(w[j] == rest[j]);
                    let k = choose|k: int| 0 <= k < p.len() && p[k] == rest[j];
                    assert(s[k] == p[k]);
                    assert(k != s.len() - 1);
                }
            }
            assert forall|i: int| 0 <= i < w.len() implies #[trigger] w[i].id < next && w[i].id != id by {
                if i < rest.len() {
                    assert(w[i] == rest[i]);
                }
            }
        }
    }
}

/// Expiring a toast takes exactly that toast away: no toast with its id
/// remains, and every remaining toast was there before.
pub proof fn law_expire_removes_only_that_toast(s: Seq<ToastView>, id: u64, next: u64)
    requires
        ids_fresh(s, next),
    ensures
        forall|i: int| 0 <= i < without_id(s, id).len() ==> #[trigger] without_id(s, id)[i].id != id,
        forall|i: int|
            0 <= i < s.len() && s[i].id != id ==> without_id(s, id).contains(#[trigger] s[i]),
        forall|i: int|
            0 <= i < without_id(s, id).len() ==> s.contains(#[trigger] without_id(s, id)[i]),
    decreases s.len(),
{
    lemma_without_id_sub(s, id, next);
    if s.len() > 0 {
        let p = s.drop_last();
        assert forall|i: int, j: int| 0 <= i < p.len() && 0 <= j < p.len() && i != j implies #[trigger] p[i].id
            != #[trigger] p[j].id by {
            assert(p[i] == s[i] && p[j] == s[j]);
        }
        assert forall|i: int| 0 <= i < p.len() implies #[trigger] p[i].id < next by {
            assert(p[i] == s[i]);
        }
        law_expire_removes_only_that_toast(p, id, next);
        let rest = without_id(p, id);
        assert forall|i: int| 0 <= i < s.len() && s[i].id != id implies without_id(s, id).contains(
            #[trigger] s[i],
        ) by {
            if i < p.len() {
                assert(p[i] == s[i]);
                assert(rest.contains(p[i]));
                let k = choose|k: int| 0 <= k < rest.len() && rest[k] == p[i];
                if s.last().id != id {
                    assert(rest.push(s.last())[k] == rest[k]);
                }
            } else {
                assert(s[i] == s.last());
                assert(rest.push(s.last())[rest.len() as int] == s.last());
            }
        }
    }
}

} // verus!
