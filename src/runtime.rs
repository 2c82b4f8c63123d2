use vstd::prelude::*;

use crate::channel::{new_broadcaster, send_to_all, subscribe};
use crate::config::ImplConfig;
use crate::error::{WalleError, WalleResult};
use crate::event::{
    BaseEvent, HeartbeatContent, MessageContent, MessageEventType, StatusContent,
};
use crate::message::Message;

verus! {

/// The number of events the broadcaster buffers for a subscriber that lags.
pub const BROADCAST_CAPACITY: usize = 1024;

/// The heartbeat interval used when the configured one is zero or negative.
pub const MIN_HEARTBEAT_INTERVAL: u64 = 4;

/// The heartbeat interval, in seconds, for a configured one.
pub open spec fn clamped_interval(configured: i64) -> u64 {
    if configured <= 0 {
        MIN_HEARTBEAT_INTERVAL
    } else {
        configured as u64
    }
}

/// What `run` returns on a runtime that is running or not.
pub open spec fn run_result(running: bool) -> bool {
    !running
}

/// The transport and heartbeat tasks that a successful `run` asks its caller to
/// spawn: how many of each configured transport, and the heartbeat's interval
/// when the heartbeat is enabled.
#[derive(Clone, Copy, Debug, PartialEq, Eq, Structural)]
pub struct RunPlan {
    pub http_servers: usize,
    pub webhook_clients: usize,
    pub ws_servers: usize,
    pub ws_clients: usize,
    pub heartbeat_interval: Option<u64>,
}

/// The plan for a configuration.
pub open spec fn plan_of(config: ImplConfig) -> RunPlan {
    RunPlan {
        http_servers: config.http@.len() as usize,
        webhook_clients: config.http_webhook@.len() as usize,
        ws_servers: config.websocket@.len() as usize,
        ws_clients: config.websocket_rev@.len() as usize,
        heartbeat_interval: if config.heartbeat.enabled {
            Some(clamped_interval(config.heartbeat.interval))
        } else {
            None
        },
    }
}

/// The soft failure of publishing an event while nobody subscribes.
#[derive(Clone, Copy, Debug, PartialEq, Eq, Structural)]
pub struct NoReceiver;

impl NoReceiver {
    pub fn message(&self) -> (r: &'static str) {
        "there is no event receiver can receive the event yet"
    }
}

/// What `send_event` reports for what the broadcaster reported.
pub open spec fn send_outcome<T>(sent: Result<usize, T>) -> Result<usize, NoReceiver> {
    match sent {
        Ok(n) => Ok(n),
        Err(_) => Err(NoReceiver),
    }
}

/// Maps what the broadcaster reported to the result of `send_event`: the number of
/// receivers, or the soft failure when there was none.
pub fn report_sent<T>(sent: Result<usize, T>) -> (r: Result<usize, NoReceiver>)
    ensures
        r == send_outcome(sent),
{
    match sent {
        Ok(n) => Ok(n),
        Err(_) => Err(NoReceiver),
    }
}

/// The implementation-side runtime: its identity, configuration, action handler,
/// event broadcaster and the `running` and `online` flags.
#[verifier::reject_recursive_types(E)]
pub struct CustomOneBot<E, H> {
    pub impl_name: String,
    pub platform: String,
    pub self_id: String,
    pub config: ImplConfig,
    pub action_handler: H,
    pub broadcaster: tokio::sync::broadcast::Sender<BaseEvent<E>>,
    pub running: bool,
    pub online: bool,
}

impl<E, H> CustomOneBot<E, H> {
    /// How `run` relates the runtime before and after it to its result: it fails,
    /// changing nothing and planning no task, exactly when the runtime is running;
    /// otherwise it sets the running flag and plans the configured tasks.
    pub open spec fn run_post(before: Self, after: Self, r: WalleResult<RunPlan>) -> bool {
        &&& r is Ok <==> run_result(before.running)
        &&& r is Err ==> r->Err_0 == WalleError::AlreadyRunning && after == before
        &&& r is Ok ==> r->Ok_0 == plan_of(before.config) && after == (CustomOneBot {
            running: true,
            ..before
        })
    }

    /// The runtime after `shutdown`.
    pub open spec fn shut_down(before: Self) -> Self {
        CustomOneBot { running: false, ..before }
    }

    /// Whether the heartbeat task ends at its next wake-up.
    pub open spec fn heartbeat_stops(&self) -> bool {
        !self.running
    }
}

impl<E: Clone, H> CustomOneBot<E, H> {
    pub fn new(
        impl_name: String,
        platform: String,
        self_id: String,
        config: ImplConfig,
        action_handler: H,
    ) -> (r: Self)
        ensures
            r.impl_name == impl_name,
            r.platform == platform,
            r.self_id == self_id,
            r.config == config,
            r.action_handler == action_handler,
            !r.running,
            !r.online,
    {
        CustomOneBot {
            impl_name,
            platform,
            self_id,
            config,
            action_handler,
            broadcaster: new_broadcaster(BROADCAST_CAPACITY),
            running: false,
            online: false,
        }
    }

    /// The runtime behind a shared pointer, for the tasks that it spawns.
    pub fn arc(self) -> (r: std::sync::Arc<Self>)
        ensures
            *r == self,
    {
        std::sync::Arc::new(self)
    }

    pub fn get_status(&self) -> (r: StatusContent)
        ensures
            r == (StatusContent { good: self.running, online: self.online }),
    {
        StatusContent { good: self.is_running(), online: self.online }
    }

    pub fn is_running(&self) -> (r: bool)
        ensures
            r == self.running,
    {
        self.running
    }

    pub fn is_shutdown(&self) -> (r: bool)
        ensures
            r == !self.running,
    {
        !self.is_running()
    }

    pub fn set_running(&mut self)
        ensures
            *final(self) == (CustomOneBot { running: true, ..*old(self) }),
    {
        self.running = true;
    }

    /// Set by the transports when their connectivity changes.
    pub fn set_online(&mut self, online: bool)
        ensures
            *final(self) == (CustomOneBot { online, ..*old(self) }),
    {
        self.online = online;
    }

    /// Starts the runtime: fails, changing nothing and planning no task, when it
    /// is already running; otherwise sets the running flag and returns the tasks
    /// that the caller is to spawn for the configuration.
    pub fn run(&mut self) -> (r: WalleResult<RunPlan>)
        ensures
            Self::run_post(*old(self), *final(self), r),
    {
        if self.is_running() {
            return Err(WalleError::AlreadyRunning);
        }
        self.set_running();
        let heartbeat_interval = if self.config.heartbeat.enabled {
            Some(heartbeat_interval(self.config.heartbeat.interval))
        } else {
            None
        };
        Ok(
            RunPlan {
                http_servers: self.config.http.len(),
                webhook_clients: self.config.http_webhook.len(),
                ws_servers: self.config.websocket.len(),
                ws_clients: self.config.websocket_rev.len(),
                heartbeat_interval,
            },
        )
    }

    /// Clears the running flag. Spawned tasks are not stopped: they observe the
    /// flag, or their handles are awaited or aborted by the caller.
    pub fn shutdown(&mut self)
        ensures
            *final(self) == Self::shut_down(*old(self)),
    {
        self.running = false;
    }

    /// Publishes an event to every current subscriber; with none, reports the
    /// soft failure `NoReceiver`.
    pub fn send_event(&self, event: BaseEvent<E>) -> (r: Result<usize, NoReceiver>)
        ensures
            r is Ok ==> r->Ok_0 >= 1,
    {
        report_sent(send_to_all(&self.broadcaster, event))
    }

    /// A new subscriber, which receives the events published after this call.
    pub fn subscribe(&self) -> tokio::sync::broadcast::Receiver<BaseEvent<E>> {
        subscribe(&self.broadcaster)
    }

    /// An event of this runtime with the given identifier, time and content.
    pub fn new_event(&self, id: String, time: u64, content: E) -> (r: BaseEvent<E>)
        ensures
            r == (BaseEvent {
                id,
                impl_name: self.impl_name,
                platform: self.platform,
                self_id: self.self_id,
                time,
                content,
            }),
    {
        BaseEvent {
            id,
            impl_name: self.impl_name.clone(),
            platform: self.platform.clone(),
            self_id: self.self_id.clone(),
            time,
            content,
        }
    }

    /// A message event of this runtime: a group message when `group_id` is given,
    /// else a private one.
    pub fn new_message_event(
        &self,
        id: String,
        time: u64,
        message_id: String,
        user_id: String,
        group_id: Option<String>,
        message: Message,
    ) -> (r: BaseEvent<MessageContent>)
        ensures
            r.id == id,
            r.impl_name == self.impl_name,
            r.platform == self.platform,
            r.self_id == self.self_id,
            r.time == time,
            r.content.message_id == message_id,
            r.content.user_id == user_id,
            r.content.message == message,
            r.content.sub_type@.len() == 0,
            match group_id {
                Some(g) => r.content.ty == (MessageEventType::Group { group_id: g }),
                None => r.content.ty == MessageEventType::Private,
            },
    {
        let ty = match group_id {
            Some(group_id) => MessageEventType::Group { group_id },
            None => MessageEventType::Private,
        };
        let content = MessageContent { ty, message_id, message, user_id, sub_type: String::new() };
        BaseEvent {
            id,
            impl_name: self.impl_name.clone(),
            platform: self.platform.clone(),
            self_id: self.self_id.clone(),
            time,
            content,
        }
    }

    /// One wake-up of the heartbeat task: nothing once the runtime is shut down
    /// (the task then ends), else the heartbeat content to publish.
    pub fn heartbeat_step(&self, interval: u64) -> (r: Option<HeartbeatContent>)
        ensures
            r is None <==> self.heartbeat_stops(),
            r matches Some(h) ==> h.interval == interval && h.status == (StatusContent {
                good: true,
                online: self.online,
            }) && h.sub_type@.len() == 0,
    {
        if self.is_shutdown() {
            return None;
        }
        Some(HeartbeatContent { interval, status: self.get_status(), sub_type: String::new() })
    }
}

/// The heartbeat interval for a configured one: a zero or negative one becomes
/// four seconds.
pub fn heartbeat_interval(configured: i64) -> (r: u64)
    ensures
        r == clamped_interval(configured),
        r >= 1,
{
    if configured <= 0 {
        MIN_HEARTBEAT_INTERVAL
    } else {
        configured as u64
    }
}

/// Running a runtime twice, with no shutdown between, fails the second time with
/// `AlreadyRunning`, leaves the runtime as the first run left it and plans no task.
pub proof fn lemma_second_run_fails<E, H>(
    s0: CustomOneBot<E, H>,
    s1: CustomOneBot<E, H>,
    s2: CustomOneBot<E, H>,
    r1: WalleResult<RunPlan>,
    r2: WalleResult<RunPlan>,
)
    requires
        CustomOneBot::run_post(s0, s1, r1),
        CustomOneBot::run_post(s1, s2, r2),
    ensures
        r2 == Err::<RunPlan, WalleError>(WalleError::AlreadyRunning),
        s2 == s1,
{
}

/// A heartbeat interval configured as zero or negative becomes four seconds, and
/// once the runtime is shut down the heartbeat task sends nothing more at its
/// next wake-up and ends; so at most the beat already under way when the flag
/// changed follows the shutdown.
pub proof fn lemma_heartbeat_after_shutdown<E, H>(before: CustomOneBot<E, H>, configured: i64)
    ensures
        configured <= 0 ==> clamped_interval(configured) == 4,
        configured > 0 ==> clamped_interval(configured) == configured,
        CustomOneBot::shut_down(before).heartbeat_stops(),
{
}

} // verus!
