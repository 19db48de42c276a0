use vstd::prelude::*;

use crate::entities_helper::WishlistModel;

verus! {

/// A wishlist entry as it is shown.
#[derive(Debug, Clone, Copy, PartialEq, Eq, Structural)]
pub struct ReadWishlistSerializer {
    pub wishlist_id: i64,
    pub retreat_id: i64,
    pub user_id: i64,
}

impl From<WishlistModel> for ReadWishlistSerializer {
    fn from(value: WishlistModel) -> (shown: Self) {
        ReadWishlistSerializer {
            wishlist_id: value.wishlist_id,
            retreat_id: value.retreat_id,
            user_id: value.user_id,
        }
    }
}

impl vstd::std_specs::convert::FromSpecImpl<WishlistModel> for ReadWishlistSerializer {
    open spec fn obeys_from_spec() -> bool {
        true
    }

    open spec fn from_spec(value: WishlistModel) -> Self {
        ReadWishlistSerializer {
            wishlist_id: value.wishlist_id,
            retreat_id: value.retreat_id,
            user_id: value.user_id,
        }
    }
}

/// The wishlist as it is shown: each entry converted, in the order in which
/// the store handed them out.
pub fn read_wishlist(items: &Vec<WishlistModel>) -> (shown: Vec<ReadWishlistSerializer>)
    ensures
        shown@.len() == items@.len(),
        forall|i: int|
            0 <= i < items@.len() ==> #[trigger] shown@[i] == (ReadWishlistSerializer {
                wishlist_id: items@[i].wishlist_id,
                retreat_id: items@[i].retreat_id,
                user_id: items@[i].user_id,
            }),
{
    let mut shown: Vec<ReadWishlistSerializer> = Vec::new();
    let mut i: usize = 0;
    while i < items.len()
        invariant
            i <= items@.len(),
            shown@.len() == i,
            forall|j: int|
                0 <= j < i ==> #[trigger] shown@[j] == (ReadWishlistSerializer {
                    wishlist_id: items@[j].wishlist_id,
                    retreat_id: items@[j].retreat_id,
                    user_id: items@[j].user_id,
                }),
        decreases items@.len() - i,
    {
        shown.push(ReadWishlistSerializer::from(items[i]));
        i = i + 1;
    }
    shown
}

} // verus!
