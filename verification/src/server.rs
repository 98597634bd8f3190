//! The watcher: one session for every holder that has been heard of.

use crate::cursor::{Bitmap, CursorImage};
use crate::ingest::ThreadPacket;
use crate::session::{
    intent_model, rejection_of, Intent, Rejection, RenderIntent, Session, Update, UserData,
    UserWindow,
};
use crate::shared::UserState;
use std::collections::HashMap;
use vstd::prelude::*;
use vstd::std_specs::iter::IteratorSpec;

verus! {

broadcast use vstd::std_specs::hash::group_hash_axioms;

/// Makes the session behind a new overlay: idle, with the initial tracks and
/// a copy of the stock pointer as its picture.
pub fn create_server_window(pointer_image: &CursorImage) -> (window: UserWindow)
    ensures
        window@ == Session::fresh(pointer_image@),
{
    UserWindow::new(pointer_image.clone())
}

/// Every session of the watcher, by the identity of its holder, and the stock
/// pointer.
pub struct Server {
    windows: HashMap<u64, UserWindow>,
    stock: CursorImage,
}

/// What became of one packet.
#[derive(Clone, PartialEq, Eq, Debug)]
pub struct Applied {
    /// Where the sender had no session: what its new overlay has to show
    /// before anything else.
    pub opened: Option<RenderIntent>,
    /// What the sender's overlay has to do on account of the packet.
    pub intent: Option<RenderIntent>,
    /// Why the packet was set aside, if it was.
    pub rejected: Option<Rejection>,
}

/// The session that a packet from `owner` meets: the one it has, or a fresh
/// one.
pub open spec fn session_of(sessions: Map<u64, Session>, pointer: Bitmap, owner: u64) -> Session {
    if sessions.contains_key(owner) {
        sessions[owner]
    } else {
        Session::fresh(pointer)
    }
}

/// The sessions after `update` from `owner` arrived at `now`.
pub open spec fn sessions_after(
    sessions: Map<u64, Session>,
    pointer: Bitmap,
    owner: u64,
    update: Update,
    now: nat,
) -> Map<u64, Session> {
    sessions.insert(owner, session_of(sessions, pointer, owner).after(update, now))
}

/// The sessions after `owner` was lost at `now`: its pointer goes idle, as if
/// it had said so, and a holder without a session gets none.
pub open spec fn sessions_after_loss(sessions: Map<u64, Session>, owner: u64, now: nat) -> Map<
    u64,
    Session,
> {
    if sessions.contains_key(owner) {
        sessions.insert(owner, sessions[owner].after(Update::State(UserState::Idle), now))
    } else {
        sessions
    }
}

/// The sessions after a tick at `now`.
pub open spec fn sessions_after_tick(sessions: Map<u64, Session>, now: nat) -> Map<u64, Session> {
    sessions.map_values(|session: Session| session.after_tick(now))
}

/// What a tick at `now` asks of the overlays when it visits the holders in
/// `order`: one intent for each holder whose session is due, in that order.
pub open spec fn tick_intents(sessions: Map<u64, Session>, order: Seq<u64>, now: nat) -> Seq<Intent> {
    order.filter_map(|owner: u64| sessions[owner].tick_intent(owner, now))
}

/// Models of a sequence of intents.
pub open spec fn intent_models(intents: Seq<RenderIntent>) -> Seq<Intent> {
    intents.map_values(|intent: RenderIntent| intent@)
}

impl Server {
    /// The sessions, by holder.
    pub closed spec fn sessions(&self) -> Map<u64, Session> {
        self.windows@.map_values(|window: UserWindow| window@)
    }

    /// The stock pointer.
    pub closed spec fn pointer(&self) -> Bitmap {
        self.stock@
    }

    /// There are finitely many sessions.
    pub proof fn lemma_sessions_finite(&self)
        ensures
            self.sessions().dom().finite(),
    {
        assert(self.sessions().dom() == self.windows@.dom());
    }

    /// A watcher without sessions, whose new sessions start with a copy of
    /// `pointer_image`.
    pub fn new(pointer_image: CursorImage) -> (server: Server)
        ensures
            server.sessions() == Map::<u64, Session>::empty(),
            server.pointer() == pointer_image@,
    {
        let server = Server { windows: HashMap::new(), stock: pointer_image };
        assert(server.sessions() =~= Map::<u64, Session>::empty());
        server
    }

    /// Whether `owner` has a session.
    pub fn contains(&self, owner: u64) -> (found: bool)
        ensures
            found == self.sessions().contains_key(owner),
    {
        self.windows.contains_key(&owner)
    }

    /// The number of sessions.
    pub fn len(&self) -> (count: usize)
        ensures
            count == self.sessions().dom().len(),
    {
        assert(self.sessions().dom() == self.windows@.dom());
        self.windows.len()
    }

    /// The session of `owner`, if it has one.
    pub fn window(&self, owner: u64) -> (window: Option<&UserWindow>)
        ensures
            window is Some <==> self.sessions().contains_key(owner),
            window matches Some(w) ==> w@ == self.sessions()[owner],
    {
        self.windows.get(&owner)
    }

    /// Takes in one packet. A sender without a session gets a fresh one
    /// first; then the packet's update is applied to the sender's session.
    pub fn apply(
        &mut self,
        packet: ThreadPacket,
        now: u64,
        monitor_width: u32,
        monitor_height: u32,
    ) -> (applied: Applied)
        ensures
            final(self).pointer() == old(self).pointer(),
            final(self).sessions() == sessions_after(
                old(self).sessions(),
                old(self).pointer(),
                packet.owner,
                packet.data@,
                now as nat,
            ),
            intent_model(applied.opened) == if old(self).sessions().contains_key(packet.owner) {
                None
            } else {
                Some(Session::fresh(old(self).pointer()).opening_intent(packet.owner))
            },
            intent_model(applied.intent) == session_of(
                old(self).sessions(),
                old(self).pointer(),
                packet.owner,
            ).intent(packet.owner, packet.data@, now as nat, monitor_width, monitor_height),
            applied.rejected == rejection_of(packet.data@),
    {
        let ThreadPacket { owner, data } = packet;
        let mut opened: Option<RenderIntent> = None;
        let mut window = match self.windows.remove(&owner) {
            Some(window) => window,
            None => {
                let window = create_server_window(&self.stock);
                opened = Some(window.opening(owner));
                window
            },
        };
        let (intent, rejected) = window.apply(owner, data, now, monitor_width, monitor_height);
        self.windows.insert(owner, window);
        assert(self.sessions() =~= sessions_after(
            old(self).sessions(),
            old(self).pointer(),
            owner,
            data@,
            now as nat,
        ));
        Applied { opened, intent, rejected }
    }

    /// Takes note that the transport has lost `owner`: its pointer goes idle,
    /// as if it had said so. Of a holder without a session no note is taken.
    pub fn lost(&mut self, owner: u64, now: u64) -> (intent: Option<RenderIntent>)
        ensures
            final(self).pointer() == old(self).pointer(),
            final(self).sessions() == sessions_after_loss(old(self).sessions(), owner, now as nat),
            intent_model(intent) == if old(self).sessions().contains_key(owner) {
                old(self).sessions()[owner].intent(
                    owner,
                    Update::State(UserState::Idle),
                    now as nat,
                    0,
                    0,
                )
            } else {
                None
            },
    {
        if self.contains(owner) {
            let packet = ThreadPacket { owner, data: UserData::State(UserState::Idle) };
            self.apply(packet, now, 0, 0).intent
        } else {
            None
        }
    }

    /// Lets the clock move every session on: each holder whose pointer is not
    /// idle and whose frame has changed gets a fill of its overlay.
    pub fn update_windows(&mut self, now: u64) -> (intents: Vec<RenderIntent>)
        ensures
            final(self).pointer() == old(self).pointer(),
            final(self).sessions() == sessions_after_tick(old(self).sessions(), now as nat),
            exists|order: Seq<u64>|
                {
                    &&& order.no_duplicates()
                    &&& order.to_set() == old(self).sessions().dom()
                    &&& intent_models(intents@) == #[trigger] tick_intents(
                        old(self).sessions(),
                        order,
                        now as nat,
                    )
                },
    {
        let owners = self.owners();
        let ghost start = self.sessions();
        let mut intents: Vec<RenderIntent> = Vec::new();
        let mut i: usize = 0;
        while i < owners.len()
            invariant
                i <= owners@.len(),
                owners@.no_duplicates(),
                owners@.to_set() == start.dom(),
                start == old(self).sessions(),
                self.pointer() == old(self).pointer(),
                self.sessions().dom() == start.dom(),
                forall|owner: u64| #[trigger]
                    start.contains_key(owner) ==> self.sessions()[owner] == if owners@.take(
                        i as int,
                    ).contains(owner) {
                        start[owner].after_tick(now as nat)
                    } else {
                        start[owner]
                    },
                intent_models(intents@) == tick_intents(start, owners@.take(i as int), now as nat),
            decreases owners@.len() - i,
        {
            let owner = owners[i];
            let ghost before = self.sessions();
            let ghost drawn = intent_models(intents@);
            proof {
                let visited = owners@.take(i as int);
                let next = owners@.take(i as int + 1);
                owners@.lemma_filter_map_take_succ(
                    |owner: u64| start[owner].tick_intent(owner, now as nat),
                    i as int,
                );
                assert(owners@.to_set().contains(owner));
                assert(next.drop_last() == visited);
                assert(next == visited.push(owner));
                assert(!visited.contains(owner));
                assert forall|other: u64| next.contains(other) <==> visited.contains(other) || other
                    == owner by {
                    if visited.contains(other) {
                        let j = choose|j: int| 0 <= j < visited.len() && visited[j] == other;
                        assert(next[j] == other);
                    }
                    if other == owner {
                        assert(next[i as int] == other);
                    }
                }
            }
            match self.windows.remove(&owner) {
                Some(mut window) => {
                    let intent = window.tick(owner, now);
                    self.windows.insert(owner, window);
                    assert(self.sessions() =~= before.insert(owner, start[owner].after_tick(now as nat)));
                    match intent {
                        Some(intent) => {
                            intents.push(intent);
                            assert(intent_models(intents@) =~= drawn.push(intent@));
                        },
                        None => {},
                    }
                },
                None => {},
            }
            i = i + 1;
        }
        assert(owners@.take(owners@.len() as int) == owners@);
        assert(self.sessions() =~= sessions_after_tick(start, now as nat));
        intents
    }

    /// The holders that have a session, each once, in no particular order.
    pub fn owners(&self) -> (owners: Vec<u64>)
        ensures
            owners@.no_duplicates(),
            owners@.to_set() == self.sessions().dom(),
    {
        let mut owners: Vec<u64> = Vec::new();
        let ghost keys = self.windows.keys().remaining().unref();
        for owner in it: self.windows.keys()
            invariant
                it.seq().unref() == keys,
                owners@ == keys.take(it.index()),
        {
            owners.push(*owner);
        }
        assert(owners@ == keys);
        assert(self.sessions().dom() == self.windows@.dom());
        owners
    }
}

/// The first packet of a holder makes exactly one session, and the next
/// packet of the same holder meets that session and makes no other.
pub proof fn lemma_session_made_once(
    sessions: Map<u64, Session>,
    pointer: Bitmap,
    owner: u64,
    first: Update,
    second: Update,
    now: nat,
    later: nat,
)
    requires
        sessions.dom().finite(),
        !sessions.contains_key(owner),
    ensures
        ({
            let once = sessions_after(sessions, pointer, owner, first, now);
            let twice = sessions_after(once, pointer, owner, second, later);
            &&& once.dom() == sessions.dom().insert(owner)
            &&& once.dom().len() == sessions.dom().len() + 1
            &&& once[owner] == Session::fresh(pointer).after(first, now)
            &&& twice.dom() == once.dom()
            &&& twice.dom().len() == once.dom().len()
            &&& twice[owner] == once[owner].after(second, later)
        }),
{
    let once = sessions_after(sessions, pointer, owner, first, now);
    let twice = sessions_after(once, pointer, owner, second, later);
    assert(once.dom() =~= sessions.dom().insert(owner));
    assert(twice.dom() =~= once.dom());
}

/// A packet changes no session but its sender's.
pub proof fn lemma_other_sessions_untouched(
    sessions: Map<u64, Session>,
    pointer: Bitmap,
    owner: u64,
    update: Update,
    now: nat,
    other: u64,
)
    requires
        other != owner,
    ensures
        sessions_after(sessions, pointer, owner, update, now).contains_key(other)
            == sessions.contains_key(other),
        sessions.contains_key(other) ==> sessions_after(sessions, pointer, owner, update, now)[other]
            == sessions[other],
{
}

/// A tick asks for exactly the intents of the holders whose sessions are due.
pub proof fn lemma_tick_intents_exact(
    sessions: Map<u64, Session>,
    order: Seq<u64>,
    now: nat,
    intent: Intent,
)
    ensures
        tick_intents(sessions, order, now).contains(intent) <==> order.contains(intent.owner)
            && sessions[intent.owner].tick_intent(intent.owner, now) == Some(intent),
    decreases order.len(),
{
    let ask = |owner: u64| sessions[owner].tick_intent(owner, now);
    if order.len() > 0 {
        let before = order.drop_last();
        let last = order.last();
        lemma_tick_intents_exact(sessions, before, now, intent);
        let asked = tick_intents(sessions, before, now);
        assert(order == before.push(last));
        if before.contains(intent.owner) {
            let j = choose|j: int| 0 <= j < before.len() && before[j] == intent.owner;
            assert(order[j] == intent.owner);
        }
        if order.contains(intent.owner) && !before.contains(intent.owner) {
            let j = choose|j: int| 0 <= j < order.len() && order[j] == intent.owner;
            if j < before.len() {
                assert(before[j] == intent.owner);
            }
        }
        match ask(last) {
            Some(found) => {
                let all = asked + seq![found];
                assert(tick_intents(sessions, order, now) == all);
                assert(all[asked.len() as int] == found);
                if asked.contains(intent) {
                    let j = choose|j: int| 0 <= j < asked.len() && asked[j] == intent;
                    assert(all[j] == intent);
                }
                if all.contains(intent) && !asked.contains(intent) {
                    let j = choose|j: int| 0 <= j < all.len() && all[j] == intent;
                    if j < asked.len() {
                        assert(asked[j] == intent);
                    }
                }
            },
            None => {
                assert(tick_intents(sessions, order, now) == asked);
            },
        }
    }
}

} // verus!
