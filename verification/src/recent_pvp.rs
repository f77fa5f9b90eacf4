//! Interpreting rooms in which PvP recently occurred; an experimental
//! endpoint of the server.

use vstd::prelude::*;

use crate::error::ApiError;

verus! {

/// Call parameters for requesting recent PvP.
#[derive(Debug, Clone, Copy, PartialEq, Eq)]
pub enum RecentPvpArgs {
    /// Rooms where PvP has occurred within a given number of game ticks.
    WithinLast {
        /// The interval of game ticks to request.
        ticks: u32,
    },
    /// Rooms where PvP has occurred since a given game time.
    Since {
        /// The game tick to request PvP since.
        time: u32,
    },
}

impl RecentPvpArgs {
    /// A call parameter requesting any PvP occurring since the given game
    /// tick.
    pub fn since(tick: u32) -> (r: RecentPvpArgs)
        ensures
            r == (RecentPvpArgs::Since { time: tick }),
    {
        RecentPvpArgs::Since { time: tick }
    }

    /// A call parameter requesting any PvP occurring within the last
    /// `ticks` game ticks.
    pub fn within(ticks: u32) -> (r: RecentPvpArgs)
        ensures
            r == (RecentPvpArgs::WithinLast { ticks }),
    {
        RecentPvpArgs::WithinLast { ticks }
    }
}

/// One room entry of the raw response.
#[derive(Debug, Clone, PartialEq, Eq)]
pub struct InnerRoom {
    /// The room name.
    pub id: String,
    /// The game time at which PvP last occurred in the room.
    pub last_pvp_time: u32,
}

/// One shard entry of the raw response.
#[derive(Debug, Clone, PartialEq, Eq)]
pub struct InnerShard {
    /// The rooms with recent PvP in this shard.
    pub rooms: Vec<InnerRoom>,
    /// The game time of the shard when the call completed.
    pub time: u32,
}

/// Recent PvP raw result, as carried by the response body.
#[derive(Debug, Clone, PartialEq, Eq)]
pub struct Response {
    /// The `ok` marker of the response; 1 on success.
    pub ok: i32,
    /// Shard names with their recent PvP, in response order.
    pub pvp: Vec<(String, InnerShard)>,
}

/// Recent PvP matches for a particular shard.
#[derive(Debug, Clone, PartialEq, Eq)]
pub struct ShardRecentPvp {
    /// Room names in which PvP recently occurred, each with the time at
    /// which PvP last occurred there, in response order.
    pub rooms: Vec<(String, u32)>,
    /// The shard's game time when the call completed: the tick up to which
    /// PvP has been reported.
    pub reported_up_to: u32,
}

/// Recent PvP matches for the entire world.
#[derive(Debug, Clone, PartialEq, Eq)]
pub struct RecentPvp {
    /// Shard names with the recent PvP within each shard, in response
    /// order.
    pub shards: Vec<(String, ShardRecentPvp)>,
}

/// Whether `out` lists, room for room and in order, exactly the rooms of
/// the raw listing: the same names with the same last-PvP times.
pub open spec fn rooms_correspond(rooms: Seq<InnerRoom>, out: Seq<(String, u32)>) -> bool {
    &&& out.len() == rooms.len()
    &&& forall|j: int| 0 <= j < rooms.len() ==> (#[trigger] out[j]).0@ == rooms[j].id@
    &&& forall|j: int| 0 <= j < rooms.len() ==> (#[trigger] out[j]).1 == rooms[j].last_pvp_time
}

/// Whether `out` lists, shard for shard and in order, exactly what the raw
/// `pvp` listing holds: the same shard names, times and rooms.
pub open spec fn shards_correspond(
    pvp: Seq<(String, InnerShard)>,
    out: Seq<(String, ShardRecentPvp)>,
) -> bool {
    &&& out.len() == pvp.len()
    &&& forall|i: int| 0 <= i < pvp.len() ==> (#[trigger] out[i]).0@ == pvp[i].0@
    &&& forall|i: int|
        0 <= i < pvp.len() ==> (#[trigger] out[i]).1.reported_up_to == pvp[i].1.time
    &&& forall|i: int|
        0 <= i < pvp.len() ==> rooms_correspond(pvp[i].1.rooms@, (#[trigger] out[i]).1.rooms@)
}

impl RecentPvp {
    /// Interprets the raw recent-PvP response: the `ok` marker must be 1,
    /// and exactly then the call succeeds, with every shard and room of the
    /// response carried over in order.
    pub fn from_raw(raw: Response) -> (r: Result<RecentPvp, ApiError>)
        ensures
            match r {
                Ok(world) => raw.ok == 1 && shards_correspond(raw.pvp@, world.shards@),
                Err(e) => raw.ok != 1 && e == ApiError::NotOk(raw.ok),
            },
    {
        let Response { ok, pvp } = raw;
        if ok != 1 {
            return Err(ApiError::NotOk(ok));
        }
        let ghost pvp0 = pvp@;
        let mut rest = pvp;
        let mut shards: Vec<(String, ShardRecentPvp)> = Vec::new();
        while rest.len() > 0
            invariant
                shards@.len() + rest@.len() == pvp0.len(),
                rest@ == pvp0.subrange(shards@.len() as int, pvp0.len() as int),
                shards_correspond(pvp0.subrange(0, shards@.len() as int), shards@),
            decreases rest@.len(),
        {
            let ghost done = shards@.len() as int;
            let (name, data) = rest.remove(0);
            proof {
                assert(rest@ =~= pvp0.subrange(done + 1, pvp0.len() as int));
                assert((name, data) == pvp0[done]);
            }
            let ghost rooms0 = data.rooms@;
            let mut rooms_rest = data.rooms;
            let mut rooms: Vec<(String, u32)> = Vec::new();
            while rooms_rest.len() > 0
                invariant
                    rooms@.len() + rooms_rest@.len() == rooms0.len(),
                    rooms_rest@ == rooms0.subrange(rooms@.len() as int, rooms0.len() as int),
                    rooms_correspond(rooms0.subrange(0, rooms@.len() as int), rooms@),
                decreases rooms_rest@.len(),
            {
                let ghost rdone = rooms@.len() as int;
                let room = rooms_rest.remove(0);
                proof {
                    assert(rooms_rest@ =~= rooms0.subrange(rdone + 1, rooms0.len() as int));
                    assert(room == rooms0[rdone]);
                }
                rooms.push((room.id, room.last_pvp_time));
                proof {
                    assert(rooms0.subrange(0, rdone + 1) =~= rooms0.subrange(0, rdone).push(
                        rooms0[rdone],
                    ));
                }
            }
            proof {
                assert(rooms0.subrange(0, rooms0.len() as int) =~= rooms0);
            }
            shards.push((name, ShardRecentPvp { rooms, reported_up_to: data.time }));
            proof {
                assert(pvp0.subrange(0, done + 1) =~= pvp0.subrange(0, done).push(pvp0[done]));
            }
        }
        proof {
            assert(pvp0.subrange(0, pvp0.len() as int) =~= pvp0);
        }
        Ok(RecentPvp { shards })
    }
}

} // verus!
