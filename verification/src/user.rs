//! A trader: a label, a spending secret, a private balance, and the orders
//! and commitments created so far.

use crate::hashing::{
    commitment_hash_of, hash_order, nullifier_hash_of, order_hash, order_nullifier_of,
};
use crate::order::{create_order_commitment, NullifierData, OrderCommitment, OrderData};
use vstd::prelude::*;

verus! {

/// A trader with a secret and a running list of orders and commitments.
#[derive(Debug, Clone)]
pub struct User {
    pub name: String,
    pub secret: [u8; 32],
    pub balance: u64,
    pub orders: Vec<OrderData>,
    pub commitments: Vec<(OrderCommitment, NullifierData)>,
}

impl User {
    /// Creates a trader with no orders yet.
    pub fn new(name: String, secret: [u8; 32], balance: u64) -> (r: User)
        ensures
            r.name == name,
            r.secret == secret,
            r.balance == balance,
            r.orders@.len() == 0,
            r.commitments@.len() == 0,
    {
        User { name, secret, balance, orders: Vec::new(), commitments: Vec::new() }
    }

    /// Commits to an order, using the order's own content hash as the
    /// nullifier context, and records both the order and the commitment
    /// pair.
    pub fn create_order(&mut self, order: OrderData) -> (r: (OrderCommitment, NullifierData))
        ensures
            final(self).name == old(self).name,
            final(self).secret == old(self).secret,
            final(self).balance == old(self).balance,
            final(self).orders@ == old(self).orders@.push(order),
            final(self).commitments@ == old(self).commitments@.push(r),
            r.0.order_data == order,
            r.0.balance == old(self).balance,
            r.0.nullifier@ == order_nullifier_of(old(self).secret@, order_hash(order)),
            r.1.nullifier_hash@ == nullifier_hash_of(r.0.nullifier@),
            r.1.commitment_hash@ == commitment_hash_of(order, r.0.nullifier@, old(self).balance),
    {
        let order_context = hash_order(&order);
        let (commitment, nullifier_data) = create_order_commitment(
            &order,
            &self.secret,
            self.balance,
            &order_context,
        );
        self.orders.push(order);
        self.commitments.push((commitment, nullifier_data));
        (commitment, nullifier_data)
    }
}

} // verus!
