//! A chat request: the cache is asked first, else the message goes through the
//! task queue and the agent is run on the task taken from it; the reply is
//! stored and cached. The decisions are here; the driver performs the cache,
//! queue, agent and storage calls.
use vstd::prelude::*;
use vstd::string::*;
use crate::queue::QueueError;
use crate::text::{concat2, copy_str};

verus! {

broadcast use vstd::string::group_string_axioms;

/// The cache key of a chat message.
pub open spec fn chat_key(message: Seq<char>) -> Seq<char> {
    "chat:"@ + message
}

/// How long, in seconds, a reply stays cached.
pub open spec fn chat_ttl() -> u64 {
    60
}

/// The lines `lines` joined with line breaks.
pub open spec fn join_lines(lines: Seq<Seq<char>>) -> Seq<char>
    decreases lines.len(),
{
    if lines.len() == 0 {
        Seq::empty()
    } else if lines.len() == 1 {
        lines[0]
    } else {
        join_lines(lines.drop_last()) + "\n"@ + lines.last()
    }
}

/// The texts of `v`.
pub open spec fn texts(v: Seq<String>) -> Seq<Seq<char>> {
    v.map_values(|s: String| s@)
}

/// The lines of `lines` joined with line breaks.
pub fn join_lines_exec(lines: &Vec<String>) -> (r: String)
    ensures
        r@ == join_lines(texts(lines@)),
{
    let mut r = String::new();
    let mut i: usize = 0;
    while i < lines.len()
        invariant
            i <= lines@.len(),
            r@ == join_lines(texts(lines@.take(i as int))),
        decreases lines@.len() - i,
    {
        proof {
            assert(texts(lines@.take(i + 1)).drop_last() =~= texts(lines@.take(i as int)));
            assert(texts(lines@.take(i + 1)).last() == lines@[i as int]@);
        }
        if i > 0 {
            r.append("\n");
        }
        r.append(lines[i].as_str());
        proof {
            if i == 0 {
                assert(texts(lines@.take(1)) =~= seq![lines@[0]@]);
            }
        }
        i = i + 1;
    }
    assert(lines@.take(lines@.len() as int) =~= lines@);
    r
}

/// The answer to an authenticated chat request over HTTP.
pub fn authenticated_reply(message: &str) -> (r: String)
    ensures
        r@ == "Authenticated agent response to: "@ + message@,
{
    concat2("Authenticated agent response to: ", message)
}

/// What the driver is asked to do.
#[derive(Debug)]
pub enum ChatCommand {
    /// Look the key up in the cache.
    CacheGet(String),
    /// Put the task on the queue.
    Enqueue(String),
    /// Take the next task from the queue.
    Dequeue,
    /// Run the agent on the task, reporting the progress notes it sends, in
    /// order.
    RunAgent(String),
    /// Store the exchange.
    Save { user_message: String, response: String },
    /// Cache the reply under the key for the given number of seconds.
    CacheSet { key: String, value: String, ttl_seconds: u64 },
    /// Answer the user.
    Reply(String),
}

/// What the driver reports.
#[derive(Debug)]
pub enum ChatEvent {
    /// The cache lookup: the cached reply, or nothing (a miss or a cache error).
    CacheLooked(Option<String>),
    Enqueued(Result<(), QueueError>),
    Dequeued(Result<Option<String>, QueueError>),
    /// The progress notes the agent run sent, in order; the last tells its
    /// answer.
    AgentRan(Vec<String>),
    /// The exchange was stored (or storing failed; either way the run goes on).
    Saved,
    /// The reply was cached (or caching failed; either way the run goes on).
    CacheStored,
}

/// Where a chat request stands.
#[derive(Debug, Clone, Copy, PartialEq, Eq, Structural)]
pub enum ChatStage {
    LookingUp,
    Enqueuing,
    Dequeuing,
    RunningAgent,
    Saving,
    Caching,
    Done,
}

/// The state of one chat request.
pub struct ChatFlow {
    message: String,
    key: String,
    has_cache: bool,
    has_storage: bool,
    response: String,
    stage: ChatStage,
}

impl ChatFlow {
    pub closed spec fn spec_message(&self) -> Seq<char> {
        self.message@
    }

    pub closed spec fn spec_key(&self) -> Seq<char> {
        self.key@
    }

    pub closed spec fn spec_has_cache(&self) -> bool {
        self.has_cache
    }

    pub closed spec fn spec_has_storage(&self) -> bool {
        self.has_storage
    }

    /// The reply once it is known.
    pub closed spec fn spec_response(&self) -> Seq<char> {
        self.response@
    }

    pub closed spec fn spec_stage(&self) -> ChatStage {
        self.stage
    }

    /// The key is the message's cache key; the cache is only consulted when
    /// there is one.
    pub open spec fn wf(&self) -> bool {
        &&& self.spec_key() == chat_key(self.spec_message())
        &&& self.spec_stage() == ChatStage::LookingUp ==> self.spec_has_cache()
        &&& self.spec_stage() == ChatStage::Caching ==> self.spec_has_cache()
        &&& self.spec_stage() == ChatStage::Saving ==> self.spec_has_storage()
    }

    /// Whether the flow can take `event` where it stands.
    pub open spec fn accepts(&self, event: ChatEvent) -> bool {
        match event {
            ChatEvent::CacheLooked(_) => self.spec_stage() == ChatStage::LookingUp,
            ChatEvent::Enqueued(_) => self.spec_stage() == ChatStage::Enqueuing,
            ChatEvent::Dequeued(_) => self.spec_stage() == ChatStage::Dequeuing,
            ChatEvent::AgentRan(_) => self.spec_stage() == ChatStage::RunningAgent,
            ChatEvent::Saved => self.spec_stage() == ChatStage::Saving,
            ChatEvent::CacheStored => self.spec_stage() == ChatStage::Caching,
        }
    }

    /// The next command once the reply is known and the exchange stored (or
    /// not to be stored): cache it if there is a cache, else answer.
    pub open spec fn after_saving(&self, cmd: ChatCommand) -> bool {
        if self.spec_has_cache() {
            &&& self.spec_stage() == ChatStage::Caching
            &&& cmd matches ChatCommand::CacheSet { key, value, ttl_seconds } && key@ == self.spec_key()
                && value@ == self.spec_response() && ttl_seconds == chat_ttl()
        } else {
            &&& self.spec_stage() == ChatStage::Done
            &&& cmd matches ChatCommand::Reply(r) && r@ == self.spec_response()
        }
    }

    /// The next command once the reply is known: store the exchange if there
    /// is storage, else go on as `after_saving`.
    pub open spec fn after_reply_known(&self, cmd: ChatCommand) -> bool {
        if self.spec_has_storage() {
            &&& self.spec_stage() == ChatStage::Saving
            &&& cmd matches ChatCommand::Save { user_message, response } && user_message@
                == self.spec_message() && response@ == self.spec_response()
        } else {
            self.after_saving(cmd)
        }
    }

    /// Whether the request is answered.
    pub fn is_done(&self) -> (b: bool)
        ensures
            b == (self.spec_stage() == ChatStage::Done),
    {
        self.stage == ChatStage::Done
    }

    /// The stage the request is in.
    pub fn stage(&self) -> (s: ChatStage)
        ensures
            s == self.spec_stage(),
    {
        self.stage
    }

    /// Starts a request for `message`: ask the cache if there is one, else
    /// queue the message.
    pub fn start(message: &str, has_cache: bool, has_storage: bool) -> (r: (ChatFlow, ChatCommand))
        ensures
            r.0.wf(),
            r.0.spec_message() == message@,
            r.0.spec_has_cache() == has_cache,
            r.0.spec_has_storage() == has_storage,
            has_cache ==> {
                &&& r.0.spec_stage() == ChatStage::LookingUp
                &&& r.1 matches ChatCommand::CacheGet(k) && k@ == chat_key(message@)
            },
            !has_cache ==> {
                &&& r.0.spec_stage() == ChatStage::Enqueuing
                &&& r.1 matches ChatCommand::Enqueue(t) && t@ == message@
            },
    {
        let key = concat2("chat:", message);
        let flow = ChatFlow {
            message: copy_str(message),
            key: key.clone(),
            has_cache,
            has_storage,
            response: String::new(),
            stage: if has_cache {
                ChatStage::LookingUp
            } else {
                ChatStage::Enqueuing
            },
        };
        if has_cache {
            (flow, ChatCommand::CacheGet(key))
        } else {
            (flow, ChatCommand::Enqueue(copy_str(message)))
        }
    }

    fn reply_known(&mut self, response: String) -> (cmd: ChatCommand)
        requires
            old(self).wf(),
        ensures
            final(self).wf(),
            final(self).spec_message() == old(self).spec_message(),
            final(self).spec_key() == old(self).spec_key(),
            final(self).spec_has_cache() == old(self).spec_has_cache(),
            final(self).spec_has_storage() == old(self).spec_has_storage(),
            final(self).spec_response() == response@,
            final(self).after_reply_known(cmd),
    {
        self.response = response;
        if self.has_storage {
            self.stage = ChatStage::Saving;
            ChatCommand::Save { user_message: self.message.clone(), response: self.response.clone() }
        } else {
            self.saved()
        }
    }

    fn saved(&mut self) -> (cmd: ChatCommand)
        requires
            old(self).wf(),
        ensures
            final(self).wf(),
            final(self).spec_message() == old(self).spec_message(),
            final(self).spec_key() == old(self).spec_key(),
            final(self).spec_has_cache() == old(self).spec_has_cache(),
            final(self).spec_has_storage() == old(self).spec_has_storage(),
            final(self).spec_response() == old(self).spec_response(),
            final(self).after_saving(cmd),
    {
        if self.has_cache {
            self.stage = ChatStage::Caching;
            ChatCommand::CacheSet { key: self.key.clone(), value: self.response.clone(), ttl_seconds: 60 }
        } else {
            self.stage = ChatStage::Done;
            ChatCommand::Reply(self.response.clone())
        }
    }

    /// Whether the flow can take `event` where it stands.
    pub fn accepts_event(&self, event: &ChatEvent) -> (b: bool)
        ensures
            b == self.accepts(*event),
    {
        match event {
            ChatEvent::CacheLooked(_) => self.stage == ChatStage::LookingUp,
            ChatEvent::Enqueued(_) => self.stage == ChatStage::Enqueuing,
            ChatEvent::Dequeued(_) => self.stage == ChatStage::Dequeuing,
            ChatEvent::AgentRan(_) => self.stage == ChatStage::RunningAgent,
            ChatEvent::Saved => self.stage == ChatStage::Saving,
            ChatEvent::CacheStored => self.stage == ChatStage::Caching,
        }
    }

    /// Takes the driver's report and says what to do next.
    ///
    /// A cache hit answers `Cached response: ...` at once. Otherwise the
    /// message is queued and the next task taken, and the agent is run on it;
    /// the reply is the agent's progress notes, one per line (the tool results
    /// and the final answer among them). When no task comes the reply is
    /// `Queued task but no task was received: ...`, and a failing queue gives
    /// `Queue error: ...`. That reply is then stored, cached, and given.
    pub fn step(&mut self, event: ChatEvent) -> (cmd: ChatCommand)
        requires
            old(self).wf(),
            old(self).accepts(event),
        ensures
            final(self).wf(),
            final(self).spec_message() == old(self).spec_message(),
            final(self).spec_has_cache() == old(self).spec_has_cache(),
            final(self).spec_has_storage() == old(self).spec_has_storage(),
            match event {
                ChatEvent::CacheLooked(Some(cached)) => {
                    &&& final(self).spec_stage() == ChatStage::Done
                    &&& cmd matches ChatCommand::Reply(r) && r@ == "Cached response: "@ + cached@
                },
                ChatEvent::CacheLooked(None) => {
                    &&& final(self).spec_stage() == ChatStage::Enqueuing
                    &&& cmd matches ChatCommand::Enqueue(t) && t@ == old(self).spec_message()
                },
                ChatEvent::Enqueued(Ok(())) => final(self).spec_stage() == ChatStage::Dequeuing
                    && cmd is Dequeue,
                ChatEvent::Enqueued(Err(e)) => final(self).spec_response() == "Queue error: "@
                    + e.spec_message() && final(self).after_reply_known(cmd),
                ChatEvent::Dequeued(Ok(Some(task))) => {
                    &&& final(self).spec_stage() == ChatStage::RunningAgent
                    &&& cmd matches ChatCommand::RunAgent(t) && t@ == task@
                },
                ChatEvent::AgentRan(notes) => final(self).spec_response() == join_lines(
                    texts(notes@),
                ) && final(self).after_reply_known(cmd),
                ChatEvent::Dequeued(Ok(None)) => final(self).spec_response()
                    == "Queued task but no task was received: "@ + old(self).spec_message()
                    && final(self).after_reply_known(cmd),
                ChatEvent::Dequeued(Err(e)) => final(self).spec_response() == "Queue error: "@
                    + e.spec_message() && final(self).after_reply_known(cmd),
                ChatEvent::Saved => final(self).spec_response() == old(self).spec_response()
                    && final(self).after_saving(cmd),
                ChatEvent::CacheStored => {
                    &&& final(self).spec_stage() == ChatStage::Done
                    &&& cmd matches ChatCommand::Reply(r) && r@ == old(self).spec_response()
                },
            },
    {
        match event {
            ChatEvent::CacheLooked(Some(cached)) => {
                self.stage = ChatStage::Done;
                ChatCommand::Reply(concat2("Cached response: ", cached.as_str()))
            },
            ChatEvent::CacheLooked(None) => {
                self.stage = ChatStage::Enqueuing;
                ChatCommand::Enqueue(self.message.clone())
            },
            ChatEvent::Enqueued(Ok(())) => {
                self.stage = ChatStage::Dequeuing;
                ChatCommand::Dequeue
            },
            ChatEvent::Enqueued(Err(e)) => {
                let m = e.message();
                self.reply_known(concat2("Queue error: ", m.as_str()))
            },
            ChatEvent::Dequeued(Ok(Some(task))) => {
                self.stage = ChatStage::RunningAgent;
                ChatCommand::RunAgent(task)
            },
            ChatEvent::AgentRan(notes) => {
                let reply = join_lines_exec(&notes);
                self.reply_known(reply)
            },
            ChatEvent::Dequeued(Ok(None)) => {
                let r = concat2("Queued task but no task was received: ", self.message.as_str());
                self.reply_known(r)
            },
            ChatEvent::Dequeued(Err(e)) => {
                let m = e.message();
                self.reply_known(concat2("Queue error: ", m.as_str()))
            },
            ChatEvent::Saved => self.saved(),
            ChatEvent::CacheStored => {
                self.stage = ChatStage::Done;
                ChatCommand::Reply(self.response.clone())
            },
        }
    }
}

} // verus!
