//! The closed set of subscription channels and their canonical topic strings.

use vstd::prelude::*;

verus! {

/// Different channels one can subscribe to.
#[derive(Debug, Clone, PartialEq, Eq)]
pub enum Channel {
    /// Server-wide messages.
    ServerMessages,
    /// A user's CPU and memory usage, updated each tick.
    UserCpu {
        /// The user id of the subscription.
        user_id: String,
    },
    /// A user's message alerts.
    UserMessages {
        /// The user id of the subscription.
        user_id: String,
    },
    /// New messages in one conversation of a user.
    UserConversation {
        /// The user id of the connected user.
        user_id: String,
        /// The user id on the other side of the conversation.
        target_user_id: String,
    },
    /// A user's credit count when it changes.
    UserCredits {
        /// The user id of the subscription.
        user_id: String,
    },
    /// Changes to a specific path in a user's memory.
    UserMemoryPath {
        /// The user id of the subscription.
        user_id: String,
        /// The memory path, separated with '.'.
        path: String,
    },
    /// A user's console log messages.
    UserConsole {
        /// The user id of the subscription.
        user_id: String,
    },
    /// Changes of a user's active code branch.
    UserActiveBranch {
        /// The user id of the subscription.
        user_id: String,
    },
    /// Small room tile view for map viewing.
    MapRoomUpdates {
        /// The room name of the subscription.
        room_name: String,
    },
    /// Updates for all entities in a room.
    ///
    /// The server limits these to two active detailed room subscriptions per
    /// account; with more, which two receive updates on a given tick is the
    /// server's choice.  This crate does not try to enforce that limit.
    RoomUpdates {
        /// The room name of the subscription.
        room_name: String,
    },
}

impl Channel {
    /// The canonical topic string of this channel, built by a fixed
    /// concatenation template per variant.
    pub open spec fn topic(&self) -> Seq<char> {
        match self {
            Channel::ServerMessages => "server-message"@,
            Channel::UserCpu { user_id } => "user:"@ + user_id@ + "/cpu"@,
            Channel::UserMessages { user_id } => "user:"@ + user_id@ + "/newMessage"@,
            Channel::UserConversation { user_id, target_user_id } => "user:"@ + user_id@
                + "/message:"@ + target_user_id@,
            Channel::UserCredits { user_id } => "user:"@ + user_id@ + "/money"@,
            Channel::UserMemoryPath { user_id, path } => "user:"@ + user_id@ + "/memory/"@
                + path@,
            Channel::UserConsole { user_id } => "user:"@ + user_id@ + "/console"@,
            Channel::UserActiveBranch { user_id } => "user:"@ + user_id@ + "/set-active-branch"@,
            Channel::MapRoomUpdates { room_name } => "roomMap2:"@ + room_name@,
            Channel::RoomUpdates { room_name } => "room:"@ + room_name@,
        }
    }

    /// Creates a channel subscribing to server messages.
    pub fn server_messages() -> (r: Self)
        ensures
            r == Channel::ServerMessages,
    {
        Channel::ServerMessages
    }

    /// Creates a channel subscribing to a user's CPU and memory.
    pub fn user_cpu(user_id: String) -> (r: Self)
        ensures
            r == (Channel::UserCpu { user_id }),
    {
        Channel::UserCpu { user_id }
    }

    /// Creates a channel subscribing to a user's new message notifications.
    pub fn user_messages(user_id: String) -> (r: Self)
        ensures
            r == (Channel::UserMessages { user_id }),
    {
        Channel::UserMessages { user_id }
    }

    /// Creates a channel subscribing to new messages in a user's specific
    /// conversation.
    pub fn user_convesation(user_id: String, target_user_id: String) -> (r: Self)
        ensures
            r == (Channel::UserConversation { user_id, target_user_id }),
    {
        Channel::UserConversation { user_id, target_user_id }
    }

    /// Creates a channel subscribing to a user's credit count.
    pub fn user_credits(user_id: String) -> (r: Self)
        ensures
            r == (Channel::UserCredits { user_id }),
    {
        Channel::UserCredits { user_id }
    }

    /// Creates a channel subscribing to a path in a user's memory.
    pub fn user_memory_path(user_id: String, path: String) -> (r: Self)
        ensures
            r == (Channel::UserMemoryPath { user_id, path }),
    {
        Channel::UserMemoryPath { user_id, path }
    }

    /// Creates a channel subscribing to a user's console output.
    pub fn user_console(user_id: String) -> (r: Self)
        ensures
            r == (Channel::UserConsole { user_id }),
    {
        Channel::UserConsole { user_id }
    }

    /// Creates a channel subscribing to when a user's active code branch
    /// changes.
    pub fn user_active_branch(user_id: String) -> (r: Self)
        ensures
            r == (Channel::UserActiveBranch { user_id }),
    {
        Channel::UserActiveBranch { user_id }
    }

    /// Creates a channel subscribing to map-view updates of a room.
    pub fn map_room_updates(room_name: String) -> (r: Self)
        ensures
            r == (Channel::MapRoomUpdates { room_name }),
    {
        Channel::MapRoomUpdates { room_name }
    }

    /// Creates a channel subscribing to detailed updates of a room's contents.
    pub fn room_updates(room_name: String) -> (r: Self)
        ensures
            r == (Channel::RoomUpdates { room_name }),
    {
        Channel::RoomUpdates { room_name }
    }

    /// The topic string preceded by `prefix`, in one allocation; used to
    /// build `subscribe`/`unsubscribe` commands without an extra copy.
    pub fn message_with_prefix(&self, prefix: &str) -> (r: String)
        ensures
            r@ == prefix@ + self.topic(),
    {
        let mut s = String::from_str(prefix);
        match self {
            Channel::ServerMessages => {
                s.append("server-message");
            },
            Channel::UserCpu { user_id } => {
                s.append("user:");
                s.append(user_id.as_str());
                s.append("/cpu");
            },
            Channel::UserMessages { user_id } => {
                s.append("user:");
                s.append(user_id.as_str());
                s.append("/newMessage");
            },
            Channel::UserConversation { user_id, target_user_id } => {
                s.append("user:");
                s.append(user_id.as_str());
                s.append("/message:");
                s.append(target_user_id.as_str());
            },
            Channel::UserCredits { user_id } => {
                s.append("user:");
                s.append(user_id.as_str());
                s.append("/money");
            },
            Channel::UserMemoryPath { user_id, path } => {
                s.append("user:");
                s.append(user_id.as_str());
                s.append("/memory/");
                s.append(path.as_str());
            },
            Channel::UserConsole { user_id } => {
                s.append("user:");
                s.append(user_id.as_str());
                s.append("/console");
            },
            Channel::UserActiveBranch { user_id } => {
                s.append("user:");
                s.append(user_id.as_str());
                s.append("/set-active-branch");
            },
            Channel::MapRoomUpdates { room_name } => {
                s.append("roomMap2:");
                s.append(room_name.as_str());
            },
            Channel::RoomUpdates { room_name } => {
                s.append("room:");
                s.append(room_name.as_str());
            },
        }
        proof {
            assert(s@ =~= prefix@ + self.topic());
        }
        s
    }

    /// Allocates the canonical topic string of this channel.
    pub fn to_string(&self) -> (r: String)
        ensures
            r@ == self.topic(),
    {
        let r = self.message_with_prefix("");
        proof {
            reveal_strlit("");
            assert(r@ =~= self.topic());
        }
        r
    }
}

/// Together with the prefix and suffix around it being fixed, the middle part
/// of a concatenation is determined by the whole.
proof fn lemma_affix_injective(p: Seq<char>, s: Seq<char>, x: Seq<char>, y: Seq<char>)
    requires
        p + x + s == p + y + s,
    ensures
        x == y,
{
    assert((p + x + s).len() == p.len() + x.len() + s.len());
    assert((p + y + s).len() == p.len() + y.len() + s.len());
    assert(x.len() == y.len());
    assert forall|i: int| 0 <= i < x.len() implies x[i] == y[i] by {
        assert((p + x + s)[p.len() + i] == x[i]);
        assert((p + y + s)[p.len() + i] == y[i]);
    }
    assert(x =~= y);
}

/// With the prefix before it fixed, the tail of a concatenation is determined
/// by the whole.
proof fn lemma_prefix_injective(p: Seq<char>, x: Seq<char>, y: Seq<char>)
    requires
        p + x == p + y,
    ensures
        x == y,
{
    assert((p + x).len() == p.len() + x.len());
    assert((p + y).len() == p.len() + y.len());
    assert(x.len() == y.len());
    assert forall|i: int| 0 <= i < x.len() implies x[i] == y[i] by {
        assert((p + x)[p.len() + i] == x[i]);
        assert((p + y)[p.len() + i] == y[i]);
    }
    assert(x =~= y);
}

/// Law: for every channel variant addressed by a single identifier, the
/// topic determines that identifier — two channels of the same such variant
/// whose topics are equal carry the same identifier, so differing ids give
/// differing topics.
///
/// The two-identifier variants are left out: their topics splice both ids
/// into one string, and different pairs can collide there.
pub proof fn lemma_topic_injective_in_id(a: Channel, b: Channel)
    requires
        a.topic() == b.topic(),
    ensures
        match (a, b) {
            (Channel::UserCpu { user_id: x }, Channel::UserCpu { user_id: y }) => x@ == y@,
            (Channel::UserMessages { user_id: x }, Channel::UserMessages { user_id: y }) => x@
                == y@,
            (Channel::UserCredits { user_id: x }, Channel::UserCredits { user_id: y }) => x@ == y@,
            (Channel::UserConsole { user_id: x }, Channel::UserConsole { user_id: y }) => x@ == y@,
            (
                Channel::UserActiveBranch { user_id: x },
                Channel::UserActiveBranch { user_id: y },
            ) => x@ == y@,
            (Channel::MapRoomUpdates { room_name: x }, Channel::MapRoomUpdates { room_name: y })
                => x@ == y@,
            (Channel::RoomUpdates { room_name: x }, Channel::RoomUpdates { room_name: y }) => x@
                == y@,
            _ => true,
        },
{
    match (a, b) {
        (Channel::UserCpu { user_id: x }, Channel::UserCpu { user_id: y }) => {
            lemma_affix_injective("user:"@, "/cpu"@, x@, y@);
        },
        (Channel::UserMessages { user_id: x }, Channel::UserMessages { user_id: y }) => {
            lemma_affix_injective("user:"@, "/newMessage"@, x@, y@);
        },
        (Channel::UserCredits { user_id: x }, Channel::UserCredits { user_id: y }) => {
            lemma_affix_injective("user:"@, "/money"@, x@, y@);
        },
        (Channel::UserConsole { user_id: x }, Channel::UserConsole { user_id: y }) => {
            lemma_affix_injective("user:"@, "/console"@, x@, y@);
        },
        (Channel::UserActiveBranch { user_id: x }, Channel::UserActiveBranch { user_id: y }) => {
            lemma_affix_injective("user:"@, "/set-active-branch"@, x@, y@);
        },
        (Channel::MapRoomUpdates { room_name: x }, Channel::MapRoomUpdates { room_name: y }) => {
            lemma_prefix_injective("roomMap2:"@, x@, y@);
        },
        (Channel::RoomUpdates { room_name: x }, Channel::RoomUpdates { room_name: y }) => {
            lemma_prefix_injective("room:"@, x@, y@);
        },
        _ => {},
    }
}

} // verus!
