//! The ticket store: tickets in the order of their creation, and the counter
//! that numbers them.

use vstd::prelude::*;
use crate::ctx::Ctx;
use crate::error::Error;

verus! {

/// A support ticket.
#[derive(Debug, PartialEq, Eq)]
pub struct Ticket {
    pub id: u64,
    pub title: String,
    pub creator: u64,
}

/// What a caller supplies to have a ticket created.
#[derive(Debug, PartialEq, Eq)]
pub struct TicketForCreate {
    pub title: String,
}

/// A ticket as a mathematical value.
pub struct TicketView {
    pub id: nat,
    pub title: Seq<char>,
    pub creator: u64,
}

impl View for Ticket {
    type V = TicketView;

    open spec fn view(&self) -> TicketView {
        TicketView { id: self.id as nat, title: self.title@, creator: self.creator }
    }
}

impl DeepView for Ticket {
    type V = TicketView;

    open spec fn deep_view(&self) -> TicketView {
        self@
    }
}

impl Clone for Ticket {
    fn clone(&self) -> (copy: Self)
        ensures
            copy == *self,
    {
        Ticket { id: self.id, title: self.title.clone(), creator: self.creator }
    }
}

/// The first index at or after `from` whose ticket has the given id, or the
/// length of `tickets` if there is none.
pub open spec fn first_with_id(tickets: Seq<TicketView>, id: nat, from: int) -> int
    decreases tickets.len() - from,
{
    if from >= tickets.len() {
        tickets.len() as int
    } else if tickets[from].id == id {
        from
    } else {
        first_with_id(tickets, id, from + 1)
    }
}

/// The store as a mathematical value: the tickets it holds, oldest first,
/// and the id that the next ticket will get.
pub struct TicketStoreView {
    pub tickets: Seq<TicketView>,
    pub next_id: nat,
}

impl TicketStoreView {
    pub open spec fn empty() -> Self {
        TicketStoreView { tickets: Seq::empty(), next_id: 0 }
    }

    /// Ids grow along the sequence, and every one of them lies below the
    /// counter: no two tickets share an id, and no id will be given again.
    pub open spec fn wf(self) -> bool {
        &&& forall|i: int, j: int|
            0 <= i < j < self.tickets.len() ==> self.tickets[i].id < self.tickets[j].id
        &&& forall|i: int| 0 <= i < self.tickets.len() ==> self.tickets[i].id < self.next_id
    }

    pub open spec fn has_id(self, id: nat) -> bool {
        exists|i: int| 0 <= i < self.tickets.len() && self.tickets[i].id == id
    }

    /// The store after a creation, and the ticket created.
    pub open spec fn create(self, title: Seq<char>, creator: u64) -> (Self, TicketView) {
        let ticket = TicketView { id: self.next_id, title, creator };
        (TicketStoreView { tickets: self.tickets.push(ticket), next_id: self.next_id + 1 }, ticket)
    }

    pub open spec fn list(self) -> Seq<TicketView> {
        self.tickets
    }

    /// The store after a deletion, and the ticket deleted: the first one
    /// with that id. Where no ticket has the id, nothing changes.
    pub open spec fn delete(self, id: nat) -> (Self, Option<TicketView>) {
        let i = first_with_id(self.tickets, id, 0);
        if i < self.tickets.len() {
            (
                TicketStoreView { tickets: self.tickets.remove(i), next_id: self.next_id },
                Some(self.tickets[i]),
            )
        } else {
            (self, None)
        }
    }
}

/// What `first_with_id` finds has the id, and nothing between `from` and it
/// has.
pub proof fn lemma_first_with_id(tickets: Seq<TicketView>, id: nat, from: int)
    requires
        0 <= from <= tickets.len(),
    ensures
        ({
            let found = first_with_id(tickets, id, from);
            &&& from <= found <= tickets.len()
            &&& found < tickets.len() ==> tickets[found].id == id
            &&& forall|k: int| from <= k < found ==> (#[trigger] tickets[k]).id != id
        }),
    decreases tickets.len() - from,
{
    if from < tickets.len() && tickets[from].id != id {
        lemma_first_with_id(tickets, id, from + 1);
    }
}

/// Creation keeps the store well formed.
pub proof fn lemma_create_keeps_wf(store: TicketStoreView, title: Seq<char>, creator: u64)
    requires
        store.wf(),
    ensures
        store.create(title, creator).0.wf(),
{
}

/// Deletion keeps the store well formed.
pub proof fn lemma_delete_keeps_wf(store: TicketStoreView, id: nat)
    requires
        store.wf(),
    ensures
        store.delete(id).0.wf(),
{
    lemma_first_with_id(store.tickets, id, 0);
}

/// One call on the store.
pub enum StoreOp {
    Create { title: Seq<char>, creator: u64 },
    List,
    Delete { id: nat },
}

impl TicketStoreView {
    /// The store after one call.
    pub open spec fn apply(self, op: StoreOp) -> Self {
        match op {
            StoreOp::Create { title, creator } => self.create(title, creator).0,
            StoreOp::List => self,
            StoreOp::Delete { id } => self.delete(id).0,
        }
    }

    /// The store after a series of calls, made in order.
    pub open spec fn run(self, ops: Seq<StoreOp>) -> Self
        decreases ops.len(),
    {
        if ops.len() == 0 {
            self
        } else {
            self.run(ops.drop_last()).apply(ops.last())
        }
    }
}

/// How many of the calls are creations.
pub open spec fn creations(ops: Seq<StoreOp>) -> nat
    decreases ops.len(),
{
    if ops.len() == 0 {
        0
    } else {
        creations(ops.drop_last()) + if ops.last() is Create {
            1nat
        } else {
            0nat
        }
    }
}

/// Exactly one ticket of `tickets` satisfies `p`.
pub open spec fn exactly_one(tickets: Seq<TicketView>, p: spec_fn(TicketView) -> bool) -> bool {
    exists|i: int|
        {
            &&& 0 <= i < tickets.len()
            &&& #[trigger] p(tickets[i])
            &&& forall|j: int| 0 <= j < tickets.len() && #[trigger] p(tickets[j]) ==> j == i
        }
}

/// Ids number the creations. Start from an empty store and make any calls in
/// any order: the store stays well formed, its counter equals the number of
/// creations made, and so the next ticket created gets that number as its id.
/// Tickets therefore get the ids 0, 1, 2, ... in the order of their creation,
/// whatever was deleted in between.
pub proof fn lemma_ids_number_creations(ops: Seq<StoreOp>, title: Seq<char>, creator: u64)
    ensures
        TicketStoreView::empty().run(ops).wf(),
        TicketStoreView::empty().run(ops).next_id == creations(ops),
        TicketStoreView::empty().run(ops).create(title, creator).1.id == creations(ops),
    decreases ops.len(),
{
    if ops.len() > 0 {
        lemma_ids_number_creations(ops.drop_last(), title, creator);
        let before = TicketStoreView::empty().run(ops.drop_last());
        match ops.last() {
            StoreOp::Create { title, creator } => lemma_create_keeps_wf(before, title, creator),
            StoreOp::List => {},
            StoreOp::Delete { id } => lemma_delete_keeps_wf(before, id),
        }
    }
}

/// A ticket just created is listed, once. After a creation the list holds
/// exactly one ticket with the id that the creation returned, and it is the
/// ticket returned, with the title and the creator that were given. If the
/// store held no ticket with that title and creator before, the list holds
/// exactly one such ticket afterwards.
pub proof fn lemma_created_ticket_is_listed(
    store: TicketStoreView,
    title: Seq<char>,
    creator: u64,
)
    requires
        store.wf(),
    ensures
        ({
            let (after, ticket) = store.create(title, creator);
            &&& ticket.title == title
            &&& ticket.creator == creator
            &&& after.list().contains(ticket)
            &&& exactly_one(after.list(), |t: TicketView| t.id == ticket.id)
            &&& (forall|k: int|
                0 <= k < store.tickets.len() ==> !((#[trigger] store.tickets[k]).title == title
                    && store.tickets[k].creator == creator)) ==> exactly_one(
                after.list(),
                |t: TicketView| t.title == title && t.creator == creator,
            )
        }),
{
    // The created ticket is the last of the list; every other ticket was in
    // the store before, with a smaller id.
    let (after, ticket) = store.create(title, creator);
    let last = after.list().len() - 1;
    let by_id = |t: TicketView| t.id == ticket.id;
    assert(by_id(after.list()[last]));
    let by_content = |t: TicketView| t.title == title && t.creator == creator;
    assert(by_content(after.list()[last]));
}

/// Deleting twice. A deletion succeeds exactly when some ticket has the id,
/// and returns a ticket of the store with that id. Whether it succeeded or
/// not, a second deletion of the same id finds nothing and changes nothing.
pub proof fn lemma_delete_twice(store: TicketStoreView, id: nat)
    requires
        store.wf(),
    ensures
        ({
            let (after, deleted) = store.delete(id);
            &&& deleted is Some <==> store.has_id(id)
            &&& deleted matches Some(ticket) ==> ticket.id == id && store.tickets.contains(ticket)
            &&& !after.has_id(id)
            &&& after.delete(id) == (after, None::<TicketView>)
        }),
{
    let (after, deleted) = store.delete(id);
    lemma_first_with_id(store.tickets, id, 0);
    lemma_first_with_id(after.tickets, id, 0);
}

/// The tickets of the service, in the order of their creation.
pub struct TicketStore {
    tickets: Vec<Ticket>,
    next_id: u64,
}

impl View for TicketStore {
    type V = TicketStoreView;

    closed spec fn view(&self) -> TicketStoreView {
        TicketStoreView { tickets: self.tickets.deep_view(), next_id: self.next_id as nat }
    }
}

impl TicketStore {
    #[verifier::type_invariant]
    spec fn inv(self) -> bool {
        self@.wf()
    }

    pub fn new() -> (store: Self)
        ensures
            store@ == TicketStoreView::empty(),
    {
        let store = TicketStore { tickets: Vec::new(), next_id: 0 };
        assert(store@.tickets =~= Seq::empty());
        store
    }

    /// The id that the next ticket will get.
    pub fn next_id(&self) -> (next_id: u64)
        ensures
            next_id == self@.next_id,
            self@.wf(),
    {
        proof {
            use_type_invariant(self);
        }
        self.next_id
    }

    /// Creates a ticket for the caller and appends it to the store.
    ///
    /// The counter is 64 bits wide: the store takes `u64::MAX` tickets over
    /// its lifetime and no more.
    pub fn create_ticket(
        &mut self,
        ctx: Ctx,
        ticket_for_create: TicketForCreate,
    ) -> (ticket: Ticket)
        requires
            old(self)@.next_id < u64::MAX,
        ensures
            (final(self)@, ticket@) == old(self)@.create(ticket_for_create.title@, ctx.user_id()),
            final(self)@.wf(),
    {
        proof {
            use_type_invariant(&*self);
        }
        let id = self.next_id;
        let ticket = Ticket { id, title: ticket_for_create.title, creator: ctx.user_id() };
        let copy = ticket.clone();
        // The invariant holds at every step, so the tickets leave the store
        // while the vector is worked on.
        let mut tickets: Vec<Ticket> = Vec::new();
        std::mem::swap(&mut tickets, &mut self.tickets);
        let ghost before = tickets.deep_view();
        tickets.push(ticket);
        assert(tickets.deep_view() =~= before.push(copy@));
        proof {
            lemma_create_keeps_wf(
                TicketStoreView { tickets: before, next_id: id as nat },
                copy@.title,
                copy@.creator,
            );
        }
        self.next_id = id + 1;
        self.tickets = tickets;
        copy
    }

    /// All tickets, oldest first. Every caller sees them all.
    pub fn list_tickets(&self, _ctx: Ctx) -> (tickets: Vec<Ticket>)
        ensures
            tickets.deep_view() == self@.list(),
            self@.wf(),
    {
        proof {
            use_type_invariant(self);
        }
        let mut tickets: Vec<Ticket> = Vec::new();
        let n = self.tickets.len();
        let mut i: usize = 0;
        while i < n
            invariant
                n == self.tickets.len(),
                i <= n,
                tickets.deep_view() == self.tickets.deep_view().take(i as int),
            decreases n - i,
        {
            let ghost before = tickets.deep_view();
            tickets.push(self.tickets[i].clone());
            assert(tickets.deep_view() =~= before.push(self.tickets[i as int]@));
            i = i + 1;
        }
        tickets
    }

    /// Removes the ticket with the given id and returns it, whoever created
    /// it. Fails with [`Error::TicketDeleteIdNotFound`], which carries the
    /// id, exactly when no ticket has it; the store is then left as it was.
    pub fn delete_ticket(&mut self, _ctx: Ctx, id: u64) -> (r: Result<Ticket, Error>)
        ensures
            final(self)@ == old(self)@.delete(id as nat).0,
            match old(self)@.delete(id as nat).1 {
                Some(deleted) => r matches Ok(ticket) && ticket@ == deleted,
                None => r == Err::<Ticket, Error>(Error::TicketDeleteIdNotFound { id }),
            },
            final(self)@.wf(),
    {
        proof {
            use_type_invariant(&*self);
        }
        let n = self.tickets.len();
        let mut i: usize = 0;
        while i < n && self.tickets[i].id != id
            invariant
                n == self.tickets.len(),
                i <= n,
                first_with_id(self@.tickets, id as nat, i as int) == first_with_id(
                    self@.tickets,
                    id as nat,
                    0,
                ),
            decreases n - i,
        {
            i = i + 1;
        }
        if i < n {
            let mut tickets: Vec<Ticket> = Vec::new();
            std::mem::swap(&mut tickets, &mut self.tickets);
            let ghost before = tickets.deep_view();
            let ticket = tickets.remove(i);
            assert(tickets.deep_view() =~= before.remove(i as int));
            proof {
                lemma_first_with_id(before, id as nat, i as int);
                lemma_delete_keeps_wf(
                    TicketStoreView { tickets: before, next_id: self.next_id as nat },
                    id as nat,
                );
            }
            self.tickets = tickets;
            Ok(ticket)
        } else {
            Err(Error::TicketDeleteIdNotFound { id })
        }
    }
}

} // verus!
