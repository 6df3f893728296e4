//! The cursor over the rows: it moves in a circle and rests only on rows
//! that can be selected.

use vstd::prelude::*;
use vstd::arithmetic::div_mod::*;
use crate::app::service::ServiceType;
use crate::app::session::App;
use crate::aws::role::Role;

verus! {

/// Row reached from `start` after `k` steps forward among `n` rows.
pub open spec fn ahead(n: int, start: int, k: int) -> int {
    (start + k) % n
}

/// Row reached from `start` after `k` steps backward among `n` rows.
pub open spec fn behind(n: int, start: int, k: int) -> int {
    (start - k) % n
}

impl App {
    /// Whether the cursor may rest on row `i`. Rows of a service without
    /// roles, and rows that no role stands for, can all be selected.
    pub open spec fn selectable(&self, i: int) -> bool {
        match self.active_kind() {
            ServiceType::S3 => !(0 <= i < self.s3_items.len()) || self.s3_items[i].selectable(),
            ServiceType::IAM => !(0 <= i < self.iam_items.len()) || self.iam_items[i].selectable(),
            ServiceType::DynamoDB => !(0 <= i < self.dynamodb_items.len())
                || self.dynamodb_items[i].selectable(),
            _ => true,
        }
    }

    /// The role of row `i`: the one its service's roles give it. A row of a
    /// service without roles, and a row that no role stands for, is an
    /// entry.
    pub open spec fn role_at(&self, i: int) -> Role {
        match self.active_kind() {
            ServiceType::S3 => if 0 <= i < self.s3_items.len() {
                self.s3_items[i].role_of()
            } else {
                Role::Entry
            },
            ServiceType::IAM => if 0 <= i < self.iam_items.len() {
                self.iam_items[i].role_of()
            } else {
                Role::Entry
            },
            ServiceType::DynamoDB => if 0 <= i < self.dynamodb_items.len() {
                self.dynamodb_items[i].role_of()
            } else {
                Role::Entry
            },
            _ => Role::Entry,
        }
    }

    /// No row can be selected.
    pub open spec fn none_selectable(&self) -> bool {
        forall|i: int| 0 <= i < self.items.len() ==> !self.selectable(i)
    }

    /// `to` is where the cursor stands after one move forward: the first
    /// selectable row met when stepping forward in a circle, or the old
    /// position where there is no such row.
    pub open spec fn moved_forward(&self, to: int) -> bool {
        let n = self.items.len() as int;
        let from = self.selected_index as int;
        if n == 0 || self.none_selectable() {
            to == from
        } else {
            exists|k: int|
                {
                    &&& 1 <= k <= n
                    &&& to == #[trigger] ahead(n, from, k)
                    &&& self.selectable(to)
                    &&& forall|j: int| 1 <= j < k ==> !self.selectable(#[trigger] ahead(n, from, j))
                }
        }
    }

    /// `to` is where the cursor stands after one move backward: the first
    /// selectable row met when stepping backward in a circle, or the old
    /// position where there is no such row.
    pub open spec fn moved_backward(&self, to: int) -> bool {
        let n = self.items.len() as int;
        let from = self.selected_index as int;
        if n == 0 || self.none_selectable() {
            to == from
        } else {
            exists|k: int|
                {
                    &&& 1 <= k <= n
                    &&& to == #[trigger] behind(n, from, k)
                    &&& self.selectable(to)
                    &&& forall|j: int| 1 <= j < k ==> !self.selectable(#[trigger] behind(n, from, j))
                }
        }
    }

    /// The cursor rests on a selectable row, unless it is out of range or
    /// no row can be selected.
    pub open spec fn cursor_ok(&self) -> bool {
        self.selected_index < self.items.len() ==> self.selectable(self.selected_index as int)
            || self.none_selectable()
    }

    /// The role of row `index`. The cursor may rest on it if and only if it
    /// is an entry or the parent link.
    pub fn row_role(&self, index: usize) -> (role: Role)
        requires
            self.active_service < self.services.len(),
        ensures
            role == self.role_at(index as int),
            role.selectable() == self.selectable(index as int),
    {
        match self.get_active_service().service_type {
            ServiceType::S3 => {
                if index < self.s3_items.len() {
                    return self.s3_items[index].role();
                }
            },
            ServiceType::IAM => {
                if index < self.iam_items.len() {
                    return self.iam_items[index].role();
                }
            },
            ServiceType::DynamoDB => {
                if index < self.dynamodb_items.len() {
                    return self.dynamodb_items[index].role();
                }
            },
            _ => {},
        }
        Role::Entry
    }

    /// Whether the cursor may rest on row `index`.
    pub fn is_selectable(&self, index: usize) -> (b: bool)
        requires
            self.active_service < self.services.len(),
        ensures
            b == self.selectable(index as int),
    {
        match self.get_active_service().service_type {
            ServiceType::S3 => {
                if index < self.s3_items.len() {
                    return self.s3_items[index].is_selectable();
                }
            },
            ServiceType::IAM => {
                if index < self.iam_items.len() {
                    return self.iam_items[index].is_selectable();
                }
            },
            ServiceType::DynamoDB => {
                if index < self.dynamodb_items.len() {
                    return self.dynamodb_items[index].is_selectable();
                }
            },
            _ => {},
        }
        true
    }
}

/// Stepping `n` times forward from any start visits every row.
proof fn lemma_ahead_covers(n: int, start: int, i: int)
    requires
        n > 0,
        0 <= i < n,
    ensures
        exists|k: int| 1 <= k <= n && #[trigger] ahead(n, start, k) == i,
{
    let d = (i - start) % n;
    lemma_mod_bound(i - start, n);
    let k = if d == 0 { n } else { d };
    // start + d is congruent to i
    lemma_add_mod_noop_right(start, i - start, n);
    assert((start + d) % n == (start + (i - start)) % n);
    lemma_small_mod(i as nat, n as nat);
    if d == 0 {
        lemma_mod_add_multiples_vanish(start, n);
        assert((n + start) % n == start % n);
    }
    assert(ahead(n, start, k) == i);
}

/// Stepping `n` times backward from any start visits every row.
proof fn lemma_behind_covers(n: int, start: int, i: int)
    requires
        n > 0,
        0 <= i < n,
    ensures
        exists|k: int| 1 <= k <= n && #[trigger] behind(n, start, k) == i,
{
    let d = (start - i) % n;
    lemma_mod_bound(start - i, n);
    let k = if d == 0 { n } else { d };
    lemma_sub_mod_noop_right(start, start - i, n);
    assert((start - d) % n == (start - (start - i)) % n);
    lemma_small_mod(i as nat, n as nat);
    if d == 0 {
        lemma_mod_sub_multiples_vanish(start, n);
        assert((-n + start) % n == start % n);
    }
    assert(behind(n, start, k) == i);
}

impl App {
    /// Moves the cursor to the next selectable row, wrapping at the end.
    /// Nothing else changes, and nothing changes at all where no row can be
    /// selected.
    pub fn next_item(&mut self)
        requires
            old(self).active_service < old(self).services.len(),
        ensures
            *final(self) == (App { selected_index: final(self).selected_index, ..*old(self) }),
            old(self).moved_forward(final(self).selected_index as int),
            old(self).items.len() > 0 ==> final(self).cursor_ok(),
            old(self).wf() ==> final(self).wf(),
    {
        let n = self.items.len();
        if n == 0 {
            return ;
        }
        let ghost from = self.selected_index as int;
        let mut cur: usize = self.selected_index % n;
        let mut k: usize = 0;
        proof {
            lemma_mod_bound(from, n as int);
        }
        while k < n
            invariant
                *self == *old(self),
                n == self.items.len(),
                n > 0,
                self.active_service < self.services.len(),
                from == self.selected_index,
                0 <= k <= n,
                cur < n,
                cur as int == ahead(n as int, from, k as int),
                forall|j: int| 1 <= j <= k ==> !self.selectable(#[trigger] ahead(n as int, from, j)),
            decreases n - k,
        {
            let next: usize = if cur + 1 == n { 0 } else { cur + 1 };
            proof {
                lemma_add_mod_noop(from + k, 1, n as int);
                lemma_mod_bound(from + k + 1, n as int);
                if cur + 1 == n {
                    lemma_mod_self_0(n as int);
                } else {
                    lemma_small_mod((cur + 1) as nat, n as nat);
                }
                if n > 1 {
                    lemma_small_mod(1, n as nat);
                } else {
                    assert(1int % 1 == 0);
                    lemma_small_mod(0, 1);
                }
                assert(next as int == ahead(n as int, from, k + 1));
            }
            cur = next;
            k += 1;
            if self.is_selectable(cur) {
                self.selected_index = cur;
                proof {
                    assert(!old(self).none_selectable());
                    assert(ahead(n as int, from, k as int) == cur);
                }
                return ;
            }
        }
        proof {
            assert forall|i: int| 0 <= i < n implies !self.selectable(i) by {
                lemma_ahead_covers(n as int, from, i);
            }
        }
    }

    /// Moves the cursor to the previous selectable row, wrapping at the
    /// start. Nothing else changes, and nothing changes at all where no row
    /// can be selected.
    pub fn previous_item(&mut self)
        requires
            old(self).active_service < old(self).services.len(),
        ensures
            *final(self) == (App { selected_index: final(self).selected_index, ..*old(self) }),
            old(self).moved_backward(final(self).selected_index as int),
            old(self).items.len() > 0 ==> final(self).cursor_ok(),
            old(self).wf() ==> final(self).wf(),
    {
        let n = self.items.len();
        if n == 0 {
            return ;
        }
        let ghost from = self.selected_index as int;
        let mut cur: usize = self.selected_index % n;
        let mut k: usize = 0;
        proof {
            lemma_mod_bound(from, n as int);
        }
        while k < n
            invariant
                *self == *old(self),
                n == self.items.len(),
                n > 0,
                self.active_service < self.services.len(),
                from == self.selected_index,
                0 <= k <= n,
                cur < n,
                cur as int == behind(n as int, from, k as int),
                forall|j: int| 1 <= j <= k ==> !self.selectable(#[trigger] behind(n as int, from, j)),
            decreases n - k,
        {
            let next: usize = if cur > 0 { cur - 1 } else { n - 1 };
            proof {
                lemma_sub_mod_noop(from - k, 1, n as int);
                lemma_mod_bound(from - k - 1, n as int);
                if cur > 0 {
                    lemma_small_mod((cur - 1) as nat, n as nat);
                } else {
                    lemma_mod_add_multiples_vanish(-1, n as int);
                    lemma_small_mod((n - 1) as nat, n as nat);
                }
                if n > 1 {
                    lemma_small_mod(1, n as nat);
                } else {
                    assert(1int % 1 == 0);
                    lemma_small_mod(0, 1);
                }
                assert(next as int == behind(n as int, from, k + 1));
            }
            cur = next;
            k += 1;
            if self.is_selectable(cur) {
                self.selected_index = cur;
                proof {
                    assert(!old(self).none_selectable());
                    assert(behind(n as int, from, k as int) == cur);
                }
                return ;
            }
        }
        proof {
            assert forall|i: int| 0 <= i < n implies !self.selectable(i) by {
                lemma_behind_covers(n as int, from, i);
            }
        }
    }
}

} // verus!
