//! Plain data carried by MQTT connections and messages.

use vstd::prelude::*;

verus! {

/// Protocol version a connection speaks.
#[derive(Clone, Copy, Debug, PartialEq, Eq, Structural)]
pub enum MQTTyClientVersion {
    V3X,
    V5,
}

impl Default for MQTTyClientVersion {
    fn default() -> (v: Self)
        ensures
            v == MQTTyClientVersion::V3X,
    {
        MQTTyClientVersion::V3X
    }
}

/// Quality-of-service level of a published or received message.
#[derive(Clone, Copy, Debug, PartialEq, Eq, Structural)]
pub enum MQTTyClientQos {
    Qos0,
    Qos1,
    Qos2,
}

impl Default for MQTTyClientQos {
    fn default() -> (q: Self)
        ensures
            q == MQTTyClientQos::Qos0,
    {
        MQTTyClientQos::Qos0
    }
}

impl MQTTyClientQos {
    /// The English name of the level, which is what gets looked up in the
    /// message catalogue.
    pub open spec fn spec_label(self) -> Seq<char> {
        match self {
            MQTTyClientQos::Qos0 => "QoS 0"@,
            MQTTyClientQos::Qos1 => "QoS 1"@,
            MQTTyClientQos::Qos2 => "QoS 2"@,
        }
    }

    /// The English name of the level.
    pub fn label(&self) -> (label: &'static str)
        ensures
            label@ == self.spec_label(),
    {
        match self {
            MQTTyClientQos::Qos0 => "QoS 0",
            MQTTyClientQos::Qos1 => "QoS 1",
            MQTTyClientQos::Qos2 => "QoS 2",
        }
    }
}

/// What is known of a broker connection. Only `client_id` and `url` identify
/// it; the rest is carried for whoever opens the connection.
#[derive(Debug, PartialEq, Eq)]
pub struct MQTTyClientConnection {
    pub name: String,
    pub client_id: String,
    pub url: String,
    pub username: Option<String>,
    pub password: Option<String>,
    pub clean_start: bool,
    pub connected: bool,
}

impl Default for MQTTyClientConnection {
    fn default() -> (c: Self)
        ensures
            c.name@.len() == 0,
            c.client_id@.len() == 0,
            c.url@.len() == 0,
            c.username is None,
            c.password is None,
            !c.clean_start,
            !c.connected,
    {
        MQTTyClientConnection {
            name: String::new(),
            client_id: String::new(),
            url: String::new(),
            username: None,
            password: None,
            clean_start: false,
            connected: false,
        }
    }
}

impl Clone for MQTTyClientConnection {
    fn clone(&self) -> (c: Self)
        ensures
            c == *self,
    {
        MQTTyClientConnection {
            name: self.name.clone(),
            client_id: self.client_id.clone(),
            url: self.url.clone(),
            username: match &self.username {
                Some(s) => Some(s.clone()),
                None => None,
            },
            password: match &self.password {
                Some(s) => Some(s.clone()),
                None => None,
            },
            clean_start: self.clean_start,
            connected: self.connected,
        }
    }
}

/// A topic filter a connection is, or is to be, subscribed to.
#[derive(Debug, PartialEq, Eq)]
pub struct MQTTyClientSubscription {
    /// May contain wildcards.
    pub topic_filter: String,
    pub qos: MQTTyClientQos,
    pub subscribed: bool,
}

impl Default for MQTTyClientSubscription {
    fn default() -> (s: Self)
        ensures
            s.topic_filter@.len() == 0,
            s.qos == MQTTyClientQos::Qos0,
            !s.subscribed,
    {
        MQTTyClientSubscription {
            topic_filter: String::new(),
            qos: MQTTyClientQos::Qos0,
            subscribed: false,
        }
    }
}

impl Clone for MQTTyClientSubscription {
    fn clone(&self) -> (s: Self)
        ensures
            s == *self,
    {
        MQTTyClientSubscription {
            topic_filter: self.topic_filter.clone(),
            qos: self.qos,
            subscribed: self.subscribed,
        }
    }
}

/// The list of key/value pairs as contracts speak of it.
pub type PropertyList = Seq<(Seq<char>, Seq<char>)>;

/// What a message holds, as contracts speak of it.
pub struct MessageView {
    pub topic: Seq<char>,
    pub qos: MQTTyClientQos,
    pub mqtt_version: MQTTyClientVersion,
    pub retained: bool,
    pub content_type: Option<Seq<char>>,
    pub timestamp: Seq<char>,
    pub user_properties: PropertyList,
    pub body: Seq<u8>,
}

impl MessageView {
    /// The message that `MQTTyClientMessage::new` makes.
    pub open spec fn empty() -> MessageView {
        MessageView {
            topic: Seq::empty(),
            qos: MQTTyClientQos::Qos0,
            mqtt_version: MQTTyClientVersion::V3X,
            retained: false,
            content_type: None,
            timestamp: Seq::empty(),
            user_properties: Seq::empty(),
            body: Seq::empty(),
        }
    }
}

/// The view of an optional string.
pub open spec fn text_of(s: Option<String>) -> Option<Seq<char>> {
    match s {
        Some(t) => Some(t@),
        None => None,
    }
}

/// A published or received MQTT message with everything that is stored of it.
#[derive(Debug, PartialEq, Eq)]
pub struct MQTTyClientMessage {
    topic: String,
    qos: MQTTyClientQos,
    mqtt_version: MQTTyClientVersion,
    retained: bool,
    content_type: Option<String>,
    timestamp: String,
    user_properties: Vec<(String, String)>,
    body: Vec<u8>,
}

impl View for MQTTyClientMessage {
    type V = MessageView;

    closed spec fn view(&self) -> MessageView {
        MessageView {
            topic: self.topic@,
            qos: self.qos,
            mqtt_version: self.mqtt_version,
            retained: self.retained,
            content_type: text_of(self.content_type),
            timestamp: self.timestamp@,
            user_properties: self.user_properties.deep_view(),
            body: self.body@,
        }
    }
}

impl DeepView for MQTTyClientMessage {
    type V = MessageView;

    open spec fn deep_view(&self) -> MessageView {
        self@
    }
}

/// Copies a list of pairs, string by string.
pub fn clone_pairs(pairs: &[(String, String)]) -> (copy: Vec<(String, String)>)
    ensures
        copy.deep_view() == pairs.deep_view(),
{
    let mut copy: Vec<(String, String)> = Vec::new();
    let mut i: usize = 0;
    while i < pairs.len()
        invariant
            i <= pairs.len(),
            copy.len() == i,
            forall|j: int| 0 <= j < i ==> copy[j].0@ == pairs[j].0@ && copy[j].1@ == pairs[j].1@,
        decreases pairs.len() - i,
    {
        let key = pairs[i].0.clone();
        let value = pairs[i].1.clone();
        copy.push((key, value));
        i += 1;
    }
    copy
}

/// Copies a byte string.
pub fn clone_bytes(bytes: &[u8]) -> (copy: Vec<u8>)
    ensures
        copy@ == bytes@,
{
    let mut copy: Vec<u8> = Vec::new();
    let mut i: usize = 0;
    while i < bytes.len()
        invariant
            i <= bytes.len(),
            copy@ == bytes@.take(i as int),
        decreases bytes.len() - i,
    {
        copy.push(bytes[i]);
        i += 1;
    }
    copy
}

impl MQTTyClientMessage {
    /// A message with an empty topic, body, timestamp and property list,
    /// level 0, version 3.x, not retained, without content type.
    pub fn new() -> (m: Self)
        ensures
            m@ == MessageView::empty(),
    {
        let m = MQTTyClientMessage {
            topic: String::new(),
            qos: MQTTyClientQos::Qos0,
            mqtt_version: MQTTyClientVersion::V3X,
            retained: false,
            content_type: None,
            timestamp: String::new(),
            user_properties: Vec::new(),
            body: Vec::new(),
        };
        assert(m.user_properties.deep_view() =~= Seq::empty());
        m
    }

    pub fn topic(&self) -> (t: String)
        ensures
            t@ == self@.topic,
    {
        self.topic.clone()
    }

    pub fn set_topic(&mut self, topic: String)
        ensures
            final(self)@ == (MessageView { topic: topic@, ..old(self)@ }),
    {
        self.topic = topic;
    }

    pub fn qos(&self) -> (q: MQTTyClientQos)
        ensures
            q == self@.qos,
    {
        self.qos
    }

    pub fn set_qos(&mut self, qos: MQTTyClientQos)
        ensures
            final(self)@ == (MessageView { qos: qos, ..old(self)@ }),
    {
        self.qos = qos;
    }

    pub fn mqtt_version(&self) -> (v: MQTTyClientVersion)
        ensures
            v == self@.mqtt_version,
    {
        self.mqtt_version
    }

    pub fn set_mqtt_version(&mut self, mqtt_version: MQTTyClientVersion)
        ensures
            final(self)@ == (MessageView { mqtt_version: mqtt_version, ..old(self)@ }),
    {
        self.mqtt_version = mqtt_version;
    }

    pub fn retained(&self) -> (r: bool)
        ensures
            r == self@.retained,
    {
        self.retained
    }

    pub fn set_retained(&mut self, retained: bool)
        ensures
            final(self)@ == (MessageView { retained: retained, ..old(self)@ }),
    {
        self.retained = retained;
    }

    pub fn content_type(&self) -> (c: Option<String>)
        ensures
            text_of(c) == self@.content_type,
    {
        match &self.content_type {
            Some(s) => Some(s.clone()),
            None => None,
        }
    }

    pub fn set_content_type(&mut self, content_type: Option<String>)
        ensures
            final(self)@ == (MessageView { content_type: text_of(content_type), ..old(self)@ }),
    {
        self.content_type = content_type;
    }

    pub fn timestamp(&self) -> (t: String)
        ensures
            t@ == self@.timestamp,
    {
        self.timestamp.clone()
    }

    pub fn set_timestamp(&mut self, timestamp: String)
        ensures
            final(self)@ == (MessageView { timestamp: timestamp@, ..old(self)@ }),
    {
        self.timestamp = timestamp;
    }

    /// A copy of the payload.
    pub fn body(&self) -> (b: Vec<u8>)
        ensures
            b@ == self@.body,
    {
        clone_bytes(self.body.as_slice())
    }

    /// Replaces the payload by a copy of `body`.
    pub fn set_body(&mut self, body: &[u8])
        ensures
            final(self)@ == (MessageView { body: body@, ..old(self)@ }),
    {
        self.body = clone_bytes(body);
    }

    /// A copy of the user properties, in their order.
    pub fn user_properties(&self) -> (p: Vec<(String, String)>)
        ensures
            p.deep_view() == self@.user_properties,
    {
        clone_pairs(self.user_properties.as_slice())
    }

    /// Replaces the user properties by a copy of `user_properties`.
    pub fn set_user_properties(&mut self, user_properties: &[(String, String)])
        ensures
            final(self)@ == (MessageView {
                user_properties: user_properties.deep_view(),
                ..old(self)@
            }),
    {
        self.user_properties = clone_pairs(user_properties);
    }
}

impl Default for MQTTyClientMessage {
    fn default() -> (m: Self)
        ensures
            m@ == MessageView::empty(),
    {
        MQTTyClientMessage::new()
    }
}

impl Clone for MQTTyClientMessage {
    fn clone(&self) -> (m: Self)
        ensures
            m@ == self@,
    {
        MQTTyClientMessage {
            topic: self.topic.clone(),
            qos: self.qos,
            mqtt_version: self.mqtt_version,
            retained: self.retained,
            content_type: match &self.content_type {
                Some(s) => Some(s.clone()),
                None => None,
            },
            timestamp: self.timestamp.clone(),
            user_properties: clone_pairs(self.user_properties.as_slice()),
            body: clone_bytes(self.body.as_slice()),
        }
    }
}

/// Copies a list of subscriptions.
pub fn clone_subscriptions(list: &[MQTTyClientSubscription]) -> (copy: Vec<
    MQTTyClientSubscription,
>)
    ensures
        copy@ == list@,
{
    let mut copy: Vec<MQTTyClientSubscription> = Vec::new();
    let mut i: usize = 0;
    while i < list.len()
        invariant
            i <= list.len(),
            copy@ == list@.take(i as int),
        decreases list.len() - i,
    {
        copy.push(list[i].clone());
        i += 1;
    }
    copy
}

/// What a connection and its subscriptions hold, as contracts speak of it.
pub struct SubscriptionsDataView {
    pub connection: MQTTyClientConnection,
    pub subscriptions: Seq<MQTTyClientSubscription>,
}

/// What it takes to connect, reconnect and subscribe: a connection and the
/// list of its subscriptions.
#[derive(Debug, PartialEq, Eq)]
pub struct MQTTyClientSubscriptionsData {
    connection: MQTTyClientConnection,
    subscriptions: Vec<MQTTyClientSubscription>,
}

impl View for MQTTyClientSubscriptionsData {
    type V = SubscriptionsDataView;

    closed spec fn view(&self) -> SubscriptionsDataView {
        SubscriptionsDataView {
            connection: self.connection,
            subscriptions: self.subscriptions@,
        }
    }
}

/// The subscriptions that are switched on, in their order.
pub open spec fn switched_on(subscriptions: Seq<MQTTyClientSubscription>) -> Seq<
    MQTTyClientSubscription,
> {
    subscriptions.filter(|s: MQTTyClientSubscription| s.subscribed)
}

impl MQTTyClientSubscriptionsData {
    /// No subscriptions, and a connection with nothing filled in.
    pub fn new() -> (data: Self)
        ensures
            data@.subscriptions.len() == 0,
            data@.connection.name@.len() == 0,
            data@.connection.client_id@.len() == 0,
            data@.connection.url@.len() == 0,
            data@.connection.username is None,
            data@.connection.password is None,
            !data@.connection.clean_start,
            !data@.connection.connected,
    {
        MQTTyClientSubscriptionsData {
            connection: MQTTyClientConnection::default(),
            subscriptions: Vec::new(),
        }
    }

    /// Replaces the subscriptions by a copy of `subscriptions`.
    pub fn set_subscriptions(&mut self, subscriptions: &[MQTTyClientSubscription])
        ensures
            final(self)@ == (SubscriptionsDataView { subscriptions: subscriptions@, ..old(self)@ }),
    {
        self.subscriptions = clone_subscriptions(subscriptions);
    }

    /// A copy of the subscriptions, in their order.
    pub fn subscriptions(&self) -> (list: Vec<MQTTyClientSubscription>)
        ensures
            list@ == self@.subscriptions,
    {
        clone_subscriptions(self.subscriptions.as_slice())
    }

    /// A copy of the connection.
    pub fn connection(&self) -> (conn: MQTTyClientConnection)
        ensures
            conn == self@.connection,
    {
        self.connection.clone()
    }

    /// Replaces the connection by a copy of `conn`.
    pub fn set_connection(&mut self, conn: &MQTTyClientConnection)
        ensures
            final(self)@ == (SubscriptionsDataView { connection: *conn, ..old(self)@ }),
    {
        self.connection = conn.clone();
    }

    /// Notes whether the connection is open.
    pub fn set_connected(&mut self, connected: bool)
        ensures
            final(self)@ == (SubscriptionsDataView {
                connection: MQTTyClientConnection { connected, ..old(self)@.connection },
                ..old(self)@
            }),
    {
        self.connection.connected = connected;
    }

    /// Adds a subscription after those that are there.
    pub fn add_subscription(&mut self, subscription: MQTTyClientSubscription)
        ensures
            final(self)@ == (SubscriptionsDataView {
                subscriptions: old(self)@.subscriptions.push(subscription),
                ..old(self)@
            }),
    {
        self.subscriptions.push(subscription);
    }

    /// Removes the subscription at `index`; those after it move up.
    pub fn remove_subscription(&mut self, index: usize)
        requires
            index < old(self)@.subscriptions.len(),
        ensures
            final(self)@ == (SubscriptionsDataView {
                subscriptions: old(self)@.subscriptions.remove(index as int),
                ..old(self)@
            }),
    {
        let _ = self.subscriptions.remove(index);
    }

    /// Puts `subscription` in the place of the one at `index`.
    pub fn replace_subscription(&mut self, index: usize, subscription: MQTTyClientSubscription)
        requires
            index < old(self)@.subscriptions.len(),
        ensures
            final(self)@ == (SubscriptionsDataView {
                subscriptions: old(self)@.subscriptions.update(index as int, subscription),
                ..old(self)@
            }),
    {
        self.subscriptions.set(index, subscription);
    }

    /// Switches the subscription at `index` on or off.
    pub fn set_subscribed(&mut self, index: usize, subscribed: bool)
        requires
            index < old(self)@.subscriptions.len(),
        ensures
            final(self)@ == (SubscriptionsDataView {
                subscriptions: old(self)@.subscriptions.update(
                    index as int,
                    MQTTyClientSubscription { subscribed, ..old(self)@.subscriptions[index as int] },
                ),
                ..old(self)@
            }),
    {
        let mut changed = self.subscriptions[index].clone();
        changed.subscribed = subscribed;
        self.subscriptions.set(index, changed);
    }

    /// The subscriptions to make once the connection is open: those that
    /// are switched on, in their order.
    pub fn subscriptions_to_make(&self) -> (list: Vec<MQTTyClientSubscription>)
        ensures
            list@ == switched_on(self@.subscriptions),
    {
        let mut list: Vec<MQTTyClientSubscription> = Vec::new();
        let mut i: usize = 0;
        proof {
            reveal(Seq::filter);
        }
        while i < self.subscriptions.len()
            invariant
                i <= self.subscriptions.len(),
                list@ == switched_on(self.subscriptions@.take(i as int)),
            decreases self.subscriptions.len() - i,
        {
            proof {
                reveal(Seq::filter);
                assert(self.subscriptions@.take(i + 1).drop_last() =~= self.subscriptions@.take(
                    i as int,
                ));
            }
            if self.subscriptions[i].subscribed {
                list.push(self.subscriptions[i].clone());
            }
            i += 1;
        }
        assert(self.subscriptions@.take(i as int) =~= self.subscriptions@);
        list
    }
}

} // verus!
