use vstd::prelude::*;

use crate::drm::schema::{DRMHistoryItem, DRMMap, DRMQueueItem};
use crate::filter::CounterRead;
use crate::text::{int_text, nat_text, push_char, push_int, push_nat};

verus! {

/// Pads a number's text to two characters with a leading zero.
pub open spec fn pad2(t: Seq<char>) -> Seq<char> {
    if t.len() < 2 {
        seq!['0'] + t
    } else {
        t
    }
}

/// A duration in seconds as "m:ss", or "h:mm:ss" from one hour on. Hours,
/// minutes and seconds are split as Rust's `/` and `%` split them, rounding
/// towards zero, so a negative duration shows negative parts.
pub open spec fn clock_text(duration: int) -> Seq<char> {
    let m: int = if duration < 0 { -duration } else { duration };
    let sign: int = if duration < 0 { -1 } else { 1 };
    let hours = sign * (m / 3600);
    let minutes = sign * ((m / 60) % 60);
    let seconds = sign * (m % 60);
    if hours > 0 {
        int_text(hours) + seq![':'] + pad2(int_text(minutes)) + seq![':'] + pad2(int_text(seconds))
    } else {
        int_text(minutes) + seq![':'] + pad2(int_text(seconds))
    }
}

proof fn lemma_nat_text_len(n: nat)
    ensures
        nat_text(n).len() >= 1,
        n >= 10 ==> nat_text(n).len() >= 2,
{
    if n >= 10 {
        assert(nat_text(n) == nat_text(n / 10).push(
            crate::text::digit_char((n % 10) as int),
        ));
    }
}

/// Appends `n` padded to two characters.
fn push_padded(s: &mut String, n: i64)
    ensures
        final(s)@ == old(s)@ + pad2(int_text(n as int)),
{
    proof {
        if n < 0 {
            lemma_nat_text_len((-n) as nat);
        } else {
            lemma_nat_text_len(n as nat);
        }
    }
    if 0 <= n && n < 10 {
        push_char(s, '0');
        push_int(s, n);
        assert(final(s)@ =~= old(s)@ + pad2(int_text(n as int)));
    } else {
        push_int(s, n);
    }
}

/// Appends the clock text of a duration.
fn push_clock(s: &mut String, duration: i64)
    ensures
        final(s)@ == old(s)@ + clock_text(duration as int),
{
    let m: i128 = if duration < 0 { -(duration as i128) } else { duration as i128 };
    let sign: i128 = if duration < 0 { -1 } else { 1 };
    let hours = (sign * (m / 3600)) as i64;
    let minutes = (sign * ((m / 60) % 60)) as i64;
    let seconds = (sign * (m % 60)) as i64;
    if hours > 0 {
        push_int(s, hours);
        push_char(s, ':');
        push_padded(s, minutes);
        push_char(s, ':');
        push_padded(s, seconds);
    } else {
        push_int(s, minutes);
        push_char(s, ':');
        push_padded(s, seconds);
    }
    assert(final(s)@ =~= old(s)@ + clock_text(duration as int));
}

/// A duration in seconds as "m:ss", or "h:mm:ss" from one hour on.
pub fn format_time(duration: i32) -> (r: String)
    ensures
        r@ == clock_text(duration as int),
{
    let mut s = String::new();
    push_clock(&mut s, duration as i64);
    assert(s@ =~= clock_text(duration as int));
    s
}

/// The summed duration of a list of maps, in seconds.
pub open spec fn total_duration(maps: Seq<DRMMap>) -> int
    decreases maps.len(),
{
    if maps.len() == 0 {
        0
    } else {
        total_duration(maps.drop_last()) + maps.last().duration
    }
}

/// One of the user's maps: its spot in the queue and its title.
pub open spec fn spot_text(item: DRMQueueItem) -> Seq<char> {
    int_text(item.spot as int) + " ("@ + item.queue_item.title@ + ")"@
}

/// The user's maps, separated by commas.
pub open spec fn spots_text(items: Seq<DRMQueueItem>) -> Seq<char>
    decreases items.len(),
{
    if items.len() == 0 {
        Seq::empty()
    } else if items.len() == 1 {
        spot_text(items[0])
    } else {
        spots_text(items.drop_last()) + ", "@ + spot_text(items.last())
    }
}

/// Where the user's maps stand, as a sentence; empty when there are none.
pub open spec fn user_maps_text(items: Seq<DRMQueueItem>) -> Seq<char> {
    if items.len() == 0 {
        Seq::empty()
    } else if items.len() == 1 {
        " Your map: "@ + spot_text(items[0]) + "."@
    } else {
        " Your maps: "@ + spots_text(items) + "."@
    }
}

/// The queue's size and length, followed by where the user's maps stand
/// when they are given.
pub open spec fn queue_summary_text(
    queue: Seq<DRMMap>,
    user_maps: Option<Seq<DRMQueueItem>>,
) -> Seq<char> {
    if queue.len() == 0 {
        "Queue is empty!"@
    } else {
        "There are "@ + nat_text(queue.len()) + " maps in queue (length "@ + clock_text(
            total_duration(queue),
        ) + ")."@ + match user_maps {
            None => Seq::empty(),
            Some(u) => user_maps_text(u),
        }
    }
}

fn sum_durations(queue: &Vec<DRMMap>) -> (r: i64)
    requires
        queue@.len() <= u32::MAX,
    ensures
        r == total_duration(queue@),
{
    let mut sum: i64 = 0;
    let mut i: usize = 0;
    while i < queue.len()
        invariant
            0 <= i <= queue@.len(),
            queue@.len() <= u32::MAX,
            sum == total_duration(queue@.subrange(0, i as int)),
            -(i as int) * 0x8000_0000 <= sum <= (i as int) * 0x8000_0000,
        decreases queue@.len() - i,
    {
        assert(queue@.subrange(0, i + 1).drop_last() =~= queue@.subrange(0, i as int));
        sum = sum + queue[i].duration as i64;
        i = i + 1;
    }
    assert(queue@.subrange(0, queue@.len() as int) =~= queue@);
    sum
}

fn push_spot(s: &mut String, item: &DRMQueueItem)
    ensures
        final(s)@ == old(s)@ + spot_text(*item),
{
    push_int(s, item.spot as i64);
    s.append(" (");
    s.append(item.queue_item.title.as_str());
    s.append(")");
    assert(final(s)@ =~= old(s)@ + spot_text(*item));
}

fn push_spots(s: &mut String, items: &Vec<DRMQueueItem>)
    ensures
        final(s)@ == old(s)@ + spots_text(items@),
{
    let ghost start = s@;
    let mut i: usize = 0;
    while i < items.len()
        invariant
            0 <= i <= items@.len(),
            s@ == start + spots_text(items@.subrange(0, i as int)),
        decreases items@.len() - i,
    {
        let ghost pre = items@.subrange(0, i + 1);
        assert(pre.drop_last() =~= items@.subrange(0, i as int));
        if i > 0 {
            s.append(", ");
        }
        push_spot(s, &items[i]);
        assert(s@ =~= start + spots_text(pre));
        i = i + 1;
    }
    assert(items@.subrange(0, items@.len() as int) =~= items@);
}

/// Says how many maps are in the queue and how long they last, and, when
/// the user's maps are given, where they stand.
pub fn queue_summary(queue: &Vec<DRMMap>, user_maps: &Option<Vec<DRMQueueItem>>) -> (r: String)
    requires
        queue@.len() <= u32::MAX,
    ensures
        r@ == queue_summary_text(
            queue@,
            match user_maps {
                None => None,
                Some(u) => Some(u@),
            },
        ),
{
    if queue.len() == 0 {
        return String::from_str("Queue is empty!");
    }
    let mut s = String::from_str("There are ");
    push_nat(&mut s, queue.len() as u64);
    s.append(" maps in queue (length ");
    push_clock(&mut s, sum_durations(queue));
    s.append(").");
    match user_maps {
        None => {},
        Some(u) => {
            if u.len() == 1 {
                s.append(" Your map: ");
                push_spot(&mut s, &u[0]);
                s.append(".");
            } else if u.len() > 1 {
                s.append(" Your maps: ");
                push_spots(&mut s, u);
                s.append(".");
            }
        },
    }
    assert(s@ =~= queue_summary_text(
        queue@,
        match user_maps {
            None => None,
            Some(u) => Some(u@),
        },
    ));
    s
}

/// The map was requested by `user`; a map without a requester counts as
/// requested by the empty name.
pub open spec fn requested_by(map: DRMMap, user: Seq<char>) -> bool {
    match map.user {
        Some(u) => u@ == user,
        None => user.len() == 0,
    }
}

/// Some map of the queue was requested by `user`.
pub open spec fn has_request(queue: Seq<DRMMap>, user: Seq<char>) -> bool {
    exists|i: int| 0 <= i < queue.len() && requested_by(#[trigger] queue[i], user)
}

/// Some map of the queue was requested by `user` and has key `key`.
pub open spec fn has_request_for(queue: Seq<DRMMap>, user: Seq<char>, key: Seq<char>) -> bool {
    exists|i: int|
        0 <= i < queue.len() && requested_by(#[trigger] queue[i], user) && queue[i].bsr_key@
            == key
}

/// A new session starts only when the game's history was read and is empty.
pub fn needs_new_session(history: &Option<Vec<DRMHistoryItem>>) -> (r: bool)
    ensures
        r == match history {
            Some(h) => h@.len() == 0,
            None => false,
        },
{
    match history {
        Some(h) => h.len() == 0,
        None => false,
    }
}

/// What to do when a user takes back a request.
#[derive(Debug, Clone, PartialEq, Eq)]
pub enum Removal {
    QueueEmpty,
    NoRequests,
    /// The named map is not in the queue as a request of this user.
    NotYours(String),
    Remove(String),
    /// Remove the user's most recent request.
    RemoveLatest,
}

fn is_requested_by(map: &DRMMap, user: &str) -> (r: bool)
    ensures
        r == requested_by(*map, user@),
{
    match &map.user {
        Some(u) => *u == String::from_str(user),
        None => user.is_empty(),
    }
}

/// Decides which map a user's "oops" takes out of the queue: the named one
/// when it is one of theirs, else their latest request.
pub fn choose_removal(queue: &Vec<DRMMap>, user: &str, id: Option<String>) -> (r: Removal)
    ensures
        queue@.len() == 0 ==> r == Removal::QueueEmpty,
        queue@.len() > 0 && !has_request(queue@, user@) ==> r == Removal::NoRequests,
        queue@.len() > 0 && has_request(queue@, user@) ==> match id {
            None => r == Removal::RemoveLatest,
            Some(k) => if has_request_for(queue@, user@, k@) {
                r == Removal::Remove(k)
            } else {
                r == Removal::NotYours(k)
            },
        },
{
    if queue.len() == 0 {
        return Removal::QueueEmpty;
    }
    let mut any = false;
    let mut found = false;
    let mut i: usize = 0;
    while i < queue.len()
        invariant
            0 <= i <= queue@.len(),
            any == exists|j: int| 0 <= j < i && requested_by(#[trigger] queue@[j], user@),
            found == match id {
                None => false,
                Some(k) => exists|j: int|
                    0 <= j < i && requested_by(#[trigger] queue@[j], user@) && queue@[j].bsr_key@
                        == k@,
            },
        decreases queue@.len() - i,
    {
        if is_requested_by(&queue[i], user) {
            any = true;
            match &id {
                None => {},
                Some(k) => {
                    if queue[i].bsr_key == *k {
                        found = true;
                    }
                },
            }
        }
        i = i + 1;
    }
    assert(queue@.subrange(0, queue@.len() as int) =~= queue@);
    if !any {
        return Removal::NoRequests;
    }
    match id {
        None => Removal::RemoveLatest,
        Some(k) => if found {
            Removal::Remove(k)
        } else {
            Removal::NotYours(k)
        },
    }
}

/// A change to a user's request counter.
#[derive(Debug, Clone, Copy, PartialEq, Eq, Structural)]
pub enum CounterWrite {
    Keep,
    /// Create the user's counter with this value.
    Insert(i32),
    /// Overwrite the user's counter with this value.
    Update(i32),
}

/// How many requests are left after `used` of at most `max`, never below zero.
pub open spec fn requests_left(max: u32, used: int) -> int {
    if used >= max {
        0
    } else {
        max - used
    }
}

/// The counter after an accepted request.
pub open spec fn counter_after_request(session_max: u32, counter: CounterRead) -> CounterWrite {
    if session_max == 0 {
        CounterWrite::Keep
    } else {
        match counter {
            CounterRead::Found(n) => if n < i32::MAX {
                CounterWrite::Update((n + 1) as i32)
            } else {
                CounterWrite::Keep
            },
            _ => CounterWrite::Insert(1),
        }
    }
}

/// The confirmation of an accepted request, with the requests left this
/// session when there is a session limit.
pub open spec fn confirmation_text(key: Seq<char>, session_max: u32, counter: CounterRead) -> Seq<
    char,
> {
    let head = key + " added to queue."@;
    if session_max == 0 {
        head
    } else {
        let used: int = match counter {
            CounterRead::Found(n) => n + 1,
            _ => 1,
        };
        head + " You have "@ + int_text(requests_left(session_max, used)) + " requests left."@
    }
}

/// After a request was accepted: the message for the user and the change to
/// their request counter. Under a session limit the message says how many
/// requests the user has left after this one (the limit less the requests
/// used, never below zero).
pub fn confirm_request(key: &str, session_max: u32, counter: CounterRead) -> (r: (
    String,
    CounterWrite,
))
    ensures
        r.0@ == confirmation_text(key@, session_max, counter),
        r.1 == counter_after_request(session_max, counter),
{
    let mut s = String::from_str(key);
    s.append(" added to queue.");
    if session_max == 0 {
        return (s, CounterWrite::Keep);
    }
    let (used, write): (i64, CounterWrite) = match counter {
        CounterRead::Found(n) => (
            n as i64 + 1,
            if n < i32::MAX {
                CounterWrite::Update(n + 1)
            } else {
                CounterWrite::Keep
            },
        ),
        _ => (1, CounterWrite::Insert(1)),
    };
    let left: i64 = if used >= session_max as i64 {
        0
    } else {
        session_max as i64 - used
    };
    s.append(" You have ");
    push_int(&mut s, left);
    s.append(" requests left.");
    (s, write)
}

/// The counter after a refund: one less, when there is a session limit and
/// the user has a counter.
pub fn refund_count(session_max: u32, counter: CounterRead) -> (r: Option<i32>)
    ensures
        r == if session_max > 0 {
            match counter {
                CounterRead::Found(n) => if n > i32::MIN {
                    Some((n - 1) as i32)
                } else {
                    None
                },
                _ => None,
            }
        } else {
            None
        },
{
    if session_max == 0 {
        return None;
    }
    match counter {
        CounterRead::Found(n) => if n > i32::MIN {
            Some(n - 1)
        } else {
            None
        },
        _ => None,
    }
}

/// The queue command that moves the user's latest map (the last of their
/// maps) to the top.
pub fn move_to_top_command(user_maps: &Vec<DRMQueueItem>) -> (r: Option<String>)
    ensures
        user_maps@.len() == 0 ==> r is None,
        user_maps@.len() > 0 ==> r is Some && r.unwrap()@ == "move/"@ + int_text(
            user_maps@.last().spot as int,
        ) + "/1"@,
{
    if user_maps.len() == 0 {
        return None;
    }
    let last = &user_maps[user_maps.len() - 1];
    let mut s = String::from_str("move/");
    push_int(&mut s, last.spot as i64);
    s.append("/1");
    Some(s)
}

/// The queue command that opens or closes the queue.
pub fn set_queue_command(open: bool) -> (r: String)
    ensures
        r@ == if open {
            "open/true"@
        } else {
            "open/false"@
        },
{
    if open {
        String::from_str("open/true")
    } else {
        String::from_str("open/false")
    }
}

/// What the queue subcommand asks for.
#[derive(Debug, Clone, Copy, PartialEq, Eq, Structural)]
pub enum QueueCommand {
    Open,
    Close,
    Toggle,
}

/// Reads a queue subcommand: "open", "close" or "toggle".
pub fn parse_queue_command(command: &str) -> (r: Option<QueueCommand>)
    ensures
        r == if command@ == "open"@ {
            Some(QueueCommand::Open)
        } else if command@ == "close"@ {
            Some(QueueCommand::Close)
        } else if command@ == "toggle"@ {
            Some(QueueCommand::Toggle)
        } else {
            None
        },
{
    let c = String::from_str(command);
    if c == String::from_str("open") {
        Some(QueueCommand::Open)
    } else if c == String::from_str("close") {
        Some(QueueCommand::Close)
    } else if c == String::from_str("toggle") {
        Some(QueueCommand::Toggle)
    } else {
        None
    }
}

/// The line that names the last played map with a link to it.
pub fn link_text(map: &DRMMap) -> (r: String)
    ensures
        r@ == map.artist@ + " - "@ + map.title@ + " (mapped by "@ + map.mapper@
            + ") https://beatsaver.com/maps/"@ + map.bsr_key@,
{
    let mut s = String::new();
    s.append(map.artist.as_str());
    s.append(" - ");
    s.append(map.title.as_str());
    s.append(" (mapped by ");
    s.append(map.mapper.as_str());
    s.append(") https://beatsaver.com/maps/");
    s.append(map.bsr_key.as_str());
    assert(s@ =~= map.artist@ + " - "@ + map.title@ + " (mapped by "@ + map.mapper@
        + ") https://beatsaver.com/maps/"@ + map.bsr_key@);
    s
}

/// The host that `url::Url::parse` followed by `host_str` finds in a text;
/// `None` when the text is no absolute URL, or one without a host.
pub uninterp spec fn url_host(s: Seq<char>) -> Option<Seq<char>>;

/// Relies on `url::Url::parse` and `Url::host_str`: the host depends on the
/// text alone.
#[verifier::external_body]
fn parse_host(s: &str) -> (r: Option<String>)
    ensures
        match r {
            Some(h) => url_host(s@) == Some(h@),
            None => url_host(s@) is None,
        },
{
    match url::Url::parse(s) {
        Ok(u) => u.host_str().map(String::from),
        Err(_) => None,
    }
}

/// The confirmation of a work-in-progress map taken from `host`.
pub fn wip_message_for_host(host: &str) -> (r: String)
    ensures
        r@ == "WIP from "@ + host@ + " added to queue"@,
{
    let mut s = String::from_str("WIP from ");
    s.append(host);
    s.append(" added to queue");
    s
}

/// The confirmation of a work-in-progress map whose key is the link it was
/// fetched from; `None` when the key names no host.
pub fn wip_added_message(key: &str) -> (r: Option<String>)
    ensures
        match url_host(key@) {
            Some(h) => r is Some && r.unwrap()@ == "WIP from "@ + h + " added to queue"@,
            None => r is None,
        },
{
    match parse_host(key) {
        Some(h) => Some(wip_message_for_host(h.as_str())),
        None => None,
    }
}

/// The text before the first '+', or all of it when there is none.
pub open spec fn before_plus(s: Seq<char>) -> Seq<char> {
    if exists|i: int| 0 <= i < s.len() && s[i] == '+' {
        s.subrange(
            0,
            choose|i: int|
                0 <= i < s.len() && s[i] == '+' && forall|k: int| 0 <= k < i ==> s[k] != '+',
        )
    } else {
        s
    }
}

/// The game and mod versions, the mod's build suffix after '+' left out.
pub fn version_line(game_version: &str, mod_version: &str) -> (r: String)
    ensures
        r@ == "Beat Saber v"@ + game_version@ + ", DumbRequestManager v"@ + before_plus(
            mod_version@,
        ),
{
    let n = mod_version.unicode_len();
    let mut i: usize = 0;
    let mut found = false;
    while !found && i < n
        invariant
            n == mod_version@.len(),
            0 <= i <= n,
            found ==> i < n && mod_version@[i as int] == '+',
            forall|k: int| 0 <= k < i ==> mod_version@[k] != '+',
        decreases n - i + if found {
            0int
        } else {
            1int
        },
    {
        if mod_version.get_char(i) == '+' {
            found = true;
        } else {
            i = i + 1;
        }
    }
    proof {
        let s = mod_version@;
        if found {
            let j = choose|j: int|
                0 <= j < s.len() && s[j] == '+' && forall|k: int| 0 <= k < j ==> s[k] != '+';
            assert(j == i) by {
                if j < i {
                    assert(s[j] != '+');
                } else if j > i {
                    assert(s[i as int] != '+');
                }
            }
        } else {
            assert(s.subrange(0, i as int) =~= s);
        }
    }
    let base = mod_version.substring_char(0, i);
    let mut s = String::from_str("Beat Saber v");
    s.append(game_version);
    s.append(", DumbRequestManager v");
    s.append(base);
    s
}

} // verus!
