//! Coupons handed to members.
use vstd::prelude::*;
use crate::dates::{Date, DateTime};
use crate::member::Member;
use crate::text::{nat_text, zero_pad, zero_padded};

verus! {

/// A coupon: a code with a description and an expiry date, sent to a member.
#[derive(Debug, Clone)]
pub struct Cupon {
    pub id: Option<i32>,
    pub member_id: Option<i32>,
    pub code: String,
    pub description: String,
    pub used: bool,
    pub is_deleted: bool,
    pub expires_at: Option<Date>,
    pub created_at: Option<DateTime>,
    pub updated_at: Option<DateTime>,
}

/// A coupon with the member it belongs to.
#[derive(Debug, Clone)]
pub struct CuponWithMember {
    pub cupon: Cupon,
    pub member: Member,
}

impl Cupon {
    /// A new, unused coupon for a member; no id or timestamps yet.
    pub fn for_member(member_id: i32, code: String, description: String, expires_at: Option<Date>) -> (r: Cupon)
        ensures
            r.id is None,
            r.member_id == Some(member_id),
            r.code == code,
            r.description == description,
            !r.used,
            !r.is_deleted,
            r.expires_at == expires_at,
            r.created_at is None,
            r.updated_at is None,
    {
        Cupon {
            id: None,
            member_id: Some(member_id),
            code,
            description,
            used: false,
            is_deleted: false,
            expires_at,
            created_at: None,
            updated_at: None,
        }
    }

    /// The text a coupon is displayed as: its code.
    pub fn display_text(&self) -> (r: String)
        ensures
            r@ == self.code@,
    {
        self.code.clone()
    }

    /// A copy of the coupon with every field equal.
    pub fn copy_of(&self) -> (r: Cupon)
        ensures
            r == *self,
    {
        Cupon {
            id: self.id,
            member_id: self.member_id,
            code: self.code.clone(),
            description: self.description.clone(),
            used: self.used,
            is_deleted: self.is_deleted,
            expires_at: self.expires_at,
            created_at: self.created_at,
            updated_at: self.updated_at,
        }
    }
}

impl Default for Cupon {
    fn default() -> (r: Cupon)
        ensures
            r.id is None,
            r.member_id is None,
            r.code@ == Seq::<char>::empty(),
            r.description@ == Seq::<char>::empty(),
            !r.used,
            !r.is_deleted,
            r.expires_at is None,
            r.created_at is None,
            r.updated_at is None,
    {
        Cupon {
            id: None,
            member_id: None,
            code: String::new(),
            description: String::new(),
            used: false,
            is_deleted: false,
            expires_at: None,
            created_at: None,
            updated_at: None,
        }
    }
}

/// The code of a new coupon, made from a drawn value: its last eight
/// decimal digits, zero-padded.
pub fn cupon_code(drawn: u64) -> (r: String)
    ensures
        r@ == zero_pad(nat_text((drawn % 100000000) as nat), 8),
        r@.len() == 8,
{
    let r = zero_padded(drawn % 100000000, 8);
    proof {
        assert(pow10(8) == 100000000) by {
            reveal_with_fuel(pow10, 9);
        }
        lemma_nat_text_len_below((drawn % 100000000) as nat, 8);
    }
    r
}

/// A number below `10^k` has at most `k` digits.
proof fn lemma_nat_text_len_below(n: nat, k: nat)
    requires
        k >= 1,
        n < pow10(k),
    ensures
        nat_text(n).len() <= k,
    decreases k,
{
    if n >= 10 {
        assert(k >= 2) by {
            if k == 1 {
                assert(pow10(1) == 10) by {
                    reveal_with_fuel(pow10, 2);
                }
            }
        }
        assert(n / 10 < pow10((k - 1) as nat)) by {
            assert(pow10(k) == 10 * pow10((k - 1) as nat));
        }
        lemma_nat_text_len_below(n / 10, (k - 1) as nat);
    }
}

/// `10^k`.
spec fn pow10(k: nat) -> nat
    decreases k,
{
    if k == 0 {
        1
    } else {
        10 * pow10((k - 1) as nat)
    }
}

} // verus!
