//! Writes collected for one DynamoDB transaction.

use vstd::prelude::*;

verus! {

/// A DynamoDB transaction under construction: the client that sends it and the writes
/// added so far.
pub struct DynamodbTransaction<C, T> {
    client: C,
    items: Vec<T>,
}

impl<C, T> View for DynamodbTransaction<C, T> {
    type V = Seq<T>;

    /// The writes added so far, in the order they were added.
    closed spec fn view(&self) -> Seq<T> {
        self.items@
    }
}

/// Writes collected for one transaction. Sending them is up to the service around this
/// crate, which takes them out with `take_items_for_execution`.
pub trait Transaction {
    type TransactionItem;

    fn add_item(&mut self, item: Self::TransactionItem);

    fn add_items(&mut self, items: Vec<Self::TransactionItem>);
}

impl<C, T> Transaction for DynamodbTransaction<C, T> {
    type TransactionItem = T;

    fn add_item(&mut self, item: T)
        ensures
            final(self)@ == old(self)@.push(item),
            final(self).client_spec() == old(self).client_spec(),
    {
        self.items.push(item);
    }

    fn add_items(&mut self, items: Vec<T>)
        ensures
            final(self)@ == old(self)@ + items@,
            final(self).client_spec() == old(self).client_spec(),
    {
        let mut items = items;
        self.items.append(&mut items);
    }
}

impl<C, T> DynamodbTransaction<C, T> {
    /// The client that sends the transaction.
    pub closed spec fn client_spec(&self) -> C {
        self.client
    }

    pub fn new(client: C) -> (t: Self)
        ensures
            t@ == Seq::<T>::empty(),
            t.client_spec() == client,
    {
        DynamodbTransaction { client, items: Vec::new() }
    }

    pub fn client(&self) -> (c: &C)
        ensures
            *c == self.client_spec(),
    {
        &self.client
    }

    /// Takes the writes out in the order the request receives them: the last added first.
    /// The transaction is left empty.
    pub fn take_items_for_execution(&mut self) -> (items: Vec<T>)
        ensures
            items@ == old(self)@.reverse(),
            final(self)@ == Seq::<T>::empty(),
            final(self).client_spec() == old(self).client_spec(),
    {
        let ghost before_all = self.items@;
        let mut out: Vec<T> = Vec::new();
        while self.items.len() > 0
            invariant
                out@ + self.items@.reverse() == before_all.reverse(),
                self.client == old(self).client,
            decreases self.items.len(),
        {
            let ghost before = self.items@;
            let item = self.items.pop().unwrap();
            out.push(item);
            proof {
                assert(before =~= self.items@.push(item));
                assert(before.reverse() =~= seq![item] + self.items@.reverse());
                assert(out@ + self.items@.reverse() =~= out@.drop_last() + before.reverse());
            }
        }
        proof {
            assert(self.items@.reverse() =~= Seq::<T>::empty());
            assert(out@ =~= out@ + self.items@.reverse());
        }
        out
    }
}

} // verus!
