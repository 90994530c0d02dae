//! The registry of open tabs and the contexts it hands to documents.

use std::collections::BTreeMap;
use std::sync::{Arc, Mutex};
use serde_json::Value;
use vstd::prelude::*;
use crate::external::{json_string, json_text, lock_snapshot, lock_store, new_lock, share};
use crate::session_id::{decimal, id_string, lemma_decimal_injective, parse_id};

verus! {

broadcast use vstd::laws_cmp::group_laws_cmp;

/// A command addressed to the registry. `C` is the document's own edit
/// command, which the registry forwards unexamined.
pub enum TabCommand<'a, C> {
    NewTab,
    DeleteTab { tab_name: &'a str },
    Edit { tab_name: &'a str, edit_command: C },
}

/// What the registry made of a command: a finished reply, or an edit that
/// the caller hands to the document, under its lock, with the context.
#[verifier::reject_recursive_types(D)]
pub enum Dispatch<'a, D, P, C> {
    Reply(Option<Value>),
    Edit { edit_command: C, ctx: TabCtx<'a, D, P> },
}

/// All tabs being edited: ids mapped to shared documents, the id counter,
/// and the kill ring shared by every tab.
#[verifier::reject_recursive_types(D)]
pub struct Tabs<D> {
    tabs: BTreeMap<usize, Arc<Mutex<D>>>,
    id_counter: usize,
    kill_ring: Mutex<String>,
}

impl<D> Tabs<D> {
    /// The live tabs, by the counter value their id was made from.
    pub closed spec fn sessions(&self) -> Map<usize, Arc<Mutex<D>>> {
        self.tabs@
    }

    /// The counter value the next tab id will be made from.
    pub closed spec fn next_id(&self) -> nat {
        self.id_counter as nat
    }

    /// Every live tab was numbered before the counter's current value.
    pub open spec fn wf(&self) -> bool {
        forall|n: usize| #[trigger] self.sessions().contains_key(n) ==> n < self.next_id()
    }

    /// Whether `name` is the id of a live tab.
    pub open spec fn has_tab(&self, name: Seq<char>) -> bool {
        exists|n: usize| #[trigger] self.sessions().contains_key(n) && name == decimal(n as nat)
    }

    /// The registry after `name` was deleted.
    pub open spec fn without(&self, name: Seq<char>) -> Map<usize, Arc<Mutex<D>>> {
        self.sessions().remove_keys(Set::new(|n: usize| name == decimal(n as nat)))
    }

    /// An empty registry whose first id is "0", with an empty kill ring.
    pub fn new() -> (r: Tabs<D>)
        ensures
            r.wf(),
            r.sessions() == Map::<usize, Arc<Mutex<D>>>::empty(),
            r.next_id() == 0,
    {
        Tabs { tabs: BTreeMap::new(), id_counter: 0, kill_ring: new_lock(String::new()) }
    }

    /// Whether the counter can still make a new id.
    pub fn can_add_tab(&self) -> (r: bool)
        ensures
            r == (self.next_id() < usize::MAX),
    {
        self.id_counter < usize::MAX
    }

    /// The counter value behind the id `name`, if it is one of a live tab.
    pub open spec fn tab_key(&self, name: Seq<char>) -> usize
        recommends
            self.has_tab(name),
    {
        choose|n: usize| #[trigger] self.sessions().contains_key(n) && name == decimal(n as nat)
    }

    fn delete_tab(&mut self, tabname: &str)
        ensures
            final(self).sessions() == old(self).without(tabname@),
            final(self).next_id() == old(self).next_id(),
            old(self).kill_ring == final(self).kill_ring,
    {
        match parse_id(tabname) {
            Some(n) => {
                self.tabs.remove(&n);
                proof {
                    assert forall|k: usize| tabname@ == decimal(k as nat) implies k == n by {
                        lemma_decimal_injective(k as nat, n as nat);
                    }
                    assert(final(self).sessions() =~= old(self).without(tabname@));
                }
            },
            None => {
                assert(old(self).sessions() =~= old(self).without(tabname@));
            },
        }
    }

    fn do_delete_tab(&mut self, tab: &str)
        ensures
            final(self).sessions() == old(self).without(tab@),
            final(self).next_id() == old(self).next_id(),
            old(self).kill_ring == final(self).kill_ring,
    {
        self.delete_tab(tab);
    }

    /// Routes an edit to the tab named `tab`, or replies with nothing when
    /// there is no such tab.
    fn do_edit<'a, P, C>(&'a self, tab: &'a str, cmd: C, rpc_peer: &'a P) -> (r: Dispatch<
        'a,
        D,
        P,
        C,
    >)
        ensures
            self.edit_routed(tab@, cmd, *rpc_peer, r),
    {
        match parse_id(tab) {
            Some(n) => match self.tabs.get(&n) {
                Some(editor) => {
                    let tab_ctx = TabCtx {
                        tab: tab,
                        kill_ring: &self.kill_ring,
                        rpc_peer: rpc_peer,
                        self_ref: share(editor),
                    };
                    proof {
                        assert forall|k: usize| #[trigger] self.sessions().contains_key(k) && tab@ == decimal(k as nat) implies k == n by {
                            lemma_decimal_injective(k as nat, n as nat);
                        }
                        assert(self.sessions().contains_key(n) && tab@ == decimal(n as nat));
                        assert(self.tab_key(tab@) == n);
                        assert(tab_ctx.doc() == self.sessions()[n]);
                    }
                    Dispatch::Edit { edit_command: cmd, ctx: tab_ctx }
                },
                None => {
                    proof {
                        assert forall|k: usize| #[trigger] self.sessions().contains_key(k) implies tab@ != decimal(k as nat) by {
                            lemma_decimal_injective(k as nat, n as nat);
                        }
                    }
                    Dispatch::Reply(None)
                },
            },
            None => Dispatch::Reply(None),
        }
    }

    /// `r` is how an edit `cmd` for the tab named `name`, from the front end
    /// `peer`, is routed: to that tab's document with a context for it, or,
    /// when no live tab has that id, to an empty reply.
    pub open spec fn edit_routed<'a, P, C>(
        &self,
        name: Seq<char>,
        cmd: C,
        peer: P,
        r: Dispatch<'a, D, P, C>,
    ) -> bool {
        if self.has_tab(name) {
            r matches Dispatch::Edit { edit_command, ctx } && edit_command == cmd
                && ctx.tab_name() == name && ctx.doc() == self.sessions()[self.tab_key(name)]
                && ctx.peer() == peer
        } else {
            r == Dispatch::<'a, D, P, C>::Reply(None)
        }
    }
}
impl<D: Default> Tabs<D> {
    /// `after` is `before` with one tab more, made from the counter value
    /// `before.next_id()`, which has moved on by one.
    pub open spec fn tab_added(before: &Tabs<D>, after: &Tabs<D>) -> bool {
        let n = before.next_id() as usize;
        &&& after.next_id() == before.next_id() + 1
        &&& after.sessions().dom() == before.sessions().dom().insert(n)
        &&& forall|k: usize| #[trigger]
            before.sessions().contains_key(k) ==> after.sessions()[k] == before.sessions()[k]
    }

    fn new_tab(&mut self) -> (r: String)
        requires
            old(self).wf(),
            old(self).next_id() < usize::MAX,
        ensures
            final(self).wf(),
            r@ == decimal(old(self).next_id()),
            !old(self).has_tab(r@),
            final(self).has_tab(r@),
            Self::tab_added(old(self), final(self)),
            old(self).kill_ring == final(self).kill_ring,
    {
        let tabname = id_string(self.id_counter);
        let n = self.id_counter;
        self.id_counter = self.id_counter + 1;
        let editor = D::default();
        self.tabs.insert(n, Arc::new(new_lock(editor)));
        proof {
            assert forall|k: usize| #[trigger] old(self).sessions().contains_key(k) implies tabname@ != decimal(k as nat) by {
                lemma_decimal_injective(k as nat, n as nat);
            }
            assert(final(self).sessions().contains_key(n));
            assert forall|k: usize| #[trigger] final(self).sessions().contains_key(k) implies k < final(self).next_id() by {
                if k != n {
                    assert(old(self).sessions().contains_key(k));
                }
            }
        }
        tabname
    }

    fn do_new_tab(&mut self) -> (r: String)
        requires
            old(self).wf(),
            old(self).next_id() < usize::MAX,
        ensures
            final(self).wf(),
            r@ == decimal(old(self).next_id()),
            !old(self).has_tab(r@),
            final(self).has_tab(r@),
            Self::tab_added(old(self), final(self)),
            old(self).kill_ring == final(self).kill_ring,
    {
        self.new_tab()
    }

    /// Carries out `cmd`. A new tab is answered with its id as a JSON
    /// string; a deletion, of a live tab or not, with nothing; an edit is
    /// handed back for the document of a live tab, together with its
    /// context, and is answered with nothing when there is no such tab.
    pub fn do_rpc<'a, P, C>(&'a mut self, cmd: TabCommand<'a, C>, rpc_peer: &'a P) -> (r: Dispatch<
        'a,
        D,
        P,
        C,
    >)
        requires
            old(self).wf(),
            cmd is NewTab ==> old(self).next_id() < usize::MAX,
        ensures
            final(self).wf(),
            match cmd {
                TabCommand::NewTab => {
                    &&& r == Dispatch::<'a, D, P, C>::Reply(
                        Some(json_text(decimal(old(self).next_id()))),
                    )
                    &&& !old(self).has_tab(decimal(old(self).next_id()))
                    &&& final(self).has_tab(decimal(old(self).next_id()))
                    &&& Self::tab_added(old(self), final(self))
                },
                TabCommand::DeleteTab { tab_name } => {
                    &&& r == Dispatch::<'a, D, P, C>::Reply(None)
                    &&& final(self).sessions() == old(self).without(tab_name@)
                    &&& final(self).next_id() == old(self).next_id()
                },
                TabCommand::Edit { tab_name, edit_command } => {
                    &&& old(self).edit_routed(tab_name@, edit_command, *rpc_peer, r)
                    &&& final(self).sessions() == old(self).sessions()
                    &&& final(self).next_id() == old(self).next_id()
                },
            },
    {
        match cmd {
            TabCommand::NewTab => Dispatch::Reply(Some(json_string(self.do_new_tab()))),
            TabCommand::DeleteTab { tab_name } => {
                self.do_delete_tab(tab_name);
                Dispatch::Reply(None)
            },
            TabCommand::Edit { tab_name, edit_command } => self.do_edit(
                tab_name,
                edit_command,
                rpc_peer,
            ),
        }
    }
}

/// A notification for a peer. The method name of each is given by
/// `method`; the payload is turned into JSON where the notification is sent.
pub enum Notification {
    /// To the front end: a tab's document changed.
    Update { tab: String, update: Value },
    /// To the front end: a message for the user.
    Alert { msg: String },
    /// To a newly connected plugin: the document's size.
    Ping { buf_size: u64 },
}

impl Notification {
    pub open spec fn spec_method(&self) -> Seq<char> {
        match self {
            Notification::Update { .. } => "update"@,
            Notification::Alert { .. } => "alert"@,
            Notification::Ping { .. } => "ping_from_editor"@,
        }
    }

    /// The RPC method name under which the notification is sent.
    pub fn method(&self) -> (r: &'static str)
        ensures
            r@ == self.spec_method(),
    {
        match self {
            Notification::Update { .. } => {
                proof { reveal_strlit("update"); }
                "update"
            },
            Notification::Alert { .. } => {
                proof { reveal_strlit("alert"); }
                "alert"
            },
            Notification::Ping { .. } => {
                proof { reveal_strlit("ping_from_editor"); }
                "ping_from_editor"
            },
        }
    }
}

/// What a document sees of the registry while one command runs on it.
#[verifier::reject_recursive_types(D)]
pub struct TabCtx<'a, D, P> {
    tab: &'a str,
    kill_ring: &'a Mutex<String>,
    rpc_peer: &'a P,
    self_ref: Arc<Mutex<D>>,
}

impl<'a, D, P> TabCtx<'a, D, P> {
    /// The id of the tab the command runs on.
    pub closed spec fn tab_name(&self) -> Seq<char> {
        self.tab@
    }

    /// The handle to the document the command runs on.
    pub closed spec fn doc(&self) -> Arc<Mutex<D>> {
        self.self_ref
    }

    /// The front end's peer.
    pub closed spec fn peer(&self) -> P {
        *self.rpc_peer
    }

    /// The kill ring the context reads and writes.
    pub closed spec fn ring(&self) -> Mutex<String> {
        *self.kill_ring
    }

    /// The front end's peer, through which notifications are sent.
    pub fn rpc_peer(&self) -> (r: &'a P)
        ensures
            *r == self.peer(),
    {
        self.rpc_peer
    }

    /// The notification that tells the front end of `update` to this tab.
    pub fn update_tab(&self, update: &Value) -> (r: Notification)
        ensures
            r matches Notification::Update { tab, update: u } && tab@ == self.tab_name()
                && u == *update,
    {
        Notification::Update { tab: String::from_str(self.tab), update: update.clone() }
    }

    /// A copy of the kill ring's current contents.
    pub fn get_kill_ring(&self) -> String {
        lock_snapshot(self.kill_ring)
    }

    /// Replaces the kill ring's contents with `val`.
    pub fn set_kill_ring(&self, val: String) {
        lock_store(self.kill_ring, val);
    }

    /// Another handle to this tab's document, usable after the command ends.
    pub fn get_self_ref(&self) -> (r: Arc<Mutex<D>>)
        ensures
            r == self.doc(),
    {
        share(&self.self_ref)
    }
}

impl<'a, D, P: Clone> TabCtx<'a, D, P> {
    /// A context for a plugin attached to this tab's document, with no
    /// plugin connected yet.
    pub fn to_plugin_ctx<Q>(&self) -> (r: PluginCtx<D, P, Q>)
        ensures
            r.plugin() is None,
            r.doc() == self.doc(),
            cloned(self.peer(), r.peer()),
    {
        PluginCtx { main_peer: self.rpc_peer.clone(), plugin_peer: None, editor: self.get_self_ref() }
    }
}

/// What a plugin attached to one document holds: the front end's peer, the
/// plugin's own peer once it has connected, and the document.
#[verifier::reject_recursive_types(D)]
pub struct PluginCtx<D, P, Q> {
    main_peer: P,
    plugin_peer: Option<Q>,
    editor: Arc<Mutex<D>>,
}

impl<D, P, Q> PluginCtx<D, P, Q> {
    /// The plugin's peer, once connected.
    pub closed spec fn plugin(&self) -> Option<Q> {
        self.plugin_peer
    }

    /// The front end's peer.
    pub closed spec fn peer(&self) -> P {
        self.main_peer
    }

    /// The handle to the plugin's document.
    pub closed spec fn doc(&self) -> Arc<Mutex<D>> {
        self.editor
    }

    /// Records the connected plugin's peer and returns the handshake to send
    /// it, which carries `buf_size`, the document's size at this moment.
    pub fn on_plugin_connect(&mut self, peer: Q, buf_size: usize) -> (r: Notification)
        requires
            old(self).plugin() is None,
        ensures
            final(self).plugin() == Some(peer),
            final(self).peer() == old(self).peer(),
            final(self).doc() == old(self).doc(),
            r == (Notification::Ping { buf_size: buf_size as u64 }),
    {
        self.plugin_peer = Some(peer);
        Notification::Ping { buf_size: buf_size as u64 }
    }

    /// The notification that shows `msg` to the user.
    pub fn alert(&self, msg: &str) -> (r: Notification)
        ensures
            r matches Notification::Alert { msg: m } && m@ == msg@,
    {
        Notification::Alert { msg: String::from_str(msg) }
    }

    /// The handle to the plugin's document.
    pub fn editor(&self) -> (r: &Arc<Mutex<D>>)
        ensures
            *r == self.doc(),
    {
        &self.editor
    }

    /// The front end's peer.
    pub fn main_peer(&self) -> (r: &P)
        ensures
            *r == self.peer(),
    {
        &self.main_peer
    }

    /// The plugin's peer, once connected.
    pub fn plugin_peer(&self) -> (r: &Option<Q>)
        ensures
            *r == self.plugin(),
    {
        &self.plugin_peer
    }
}

} // verus!
