//! The server's game state: the roster of players, registration and login.

use vstd::prelude::*;
use vstd::string::*;

use crate::base::{is_fresh, Class, Player};
use crate::digest::{hash_text, hashable, password_digest};
use crate::server::Server;
use crate::text::has_prefix;

verus! {

/// The position of the first player with the given login, if any.
pub open spec fn position_of(players: Seq<Player>, login: Seq<char>) -> Option<nat>
    decreases players.len(),
{
    if players.len() == 0 {
        None
    } else if players[0].login@ == login {
        Some(0)
    } else {
        match position_of(players.drop_first(), login) {
            Some(k) => Some(k + 1),
            None => None,
        }
    }
}

/// No two players share a login.
pub open spec fn logins_distinct(players: Seq<Player>) -> bool {
    forall|i: int, j: int|
        0 <= i < players.len() && 0 <= j < players.len() && i != j ==> players[i].login@
            != players[j].login@
}

/// `p` is the player that registering `login` with a password whose digest
/// is `digest`, from `addr`, creates.
pub open spec fn registered_as(p: Player, login: Seq<char>, digest: Seq<char>, addr: Seq<char>) -> bool {
    &&& is_fresh(p)
    &&& p.login@ == login
    &&& p.password_hash@ == digest
    &&& p.data@ == addr
}

/// The reply to a successful login.
pub open spec fn login_reply(login: Seq<char>, addr: Seq<char>) -> Seq<char> {
    "Ви успішно авторизувались як: "@ + login + " ("@ + addr + ")"@
}

/// The reply to a login with the wrong password.
pub open spec fn wrong_password_reply() -> Seq<char> {
    "Ви ввели невірний пароль!"@
}

/// The reply to a registration.
pub open spec fn registration_reply() -> Seq<char> {
    "Ви успішно зареєструвались!"@
}

/// The answer to logging in or registering `login` with `password` from
/// `addr`, given the roster `before`: a greeting for a known login with the
/// right password, an error for a known login with a wrong one, and a
/// confirmation for a new login.
pub open spec fn login_result(
    before: Seq<Player>,
    login: Seq<char>,
    password: Seq<char>,
    addr: Seq<char>,
) -> Result<Seq<char>, Seq<char>> {
    match position_of(before, login) {
        Some(i) => if before[i as int].password_hash@ == password_digest(password) {
            Ok(login_reply(login, addr))
        } else {
            Err(wrong_password_reply())
        },
        None => Ok(registration_reply()),
    }
}

/// The texts of a result.
pub open spec fn result_view(r: Result<String, String>) -> Result<Seq<char>, Seq<char>> {
    match r {
        Ok(m) => Ok(m@),
        Err(m) => Err(m@),
    }
}

/// What logging in or registering `login` with `password` from `addr` does
/// to the roster (`before`, then `after`) and to storage (`write`): a known
/// login changes nothing; a new one is appended as a fresh player, and the
/// same player is to be stored under its key.
pub open spec fn add_player_effect(
    before: Seq<Player>,
    after: Seq<Player>,
    login: Seq<char>,
    password: Seq<char>,
    addr: Seq<char>,
    write: Option<StorageWrite>,
) -> bool {
    let digest = password_digest(password);
    match position_of(before, login) {
        Some(i) => after == before && write is None,
        None => {
            &&& after.len() == before.len() + 1
            &&& after.drop_last() == before
            &&& registered_as(after.last(), login, digest, addr)
            &&& write matches Some(w) && w.key@ == player_key(login) && registered_as(
                w.player,
                login,
                digest,
                addr,
            )
        },
    }
}

/// The key under which a player is stored.
pub open spec fn player_key(login: Seq<char>) -> Seq<char> {
    "player_"@ + login
}

/// The values, in order, of the entries whose key starts with `prefix`.
pub open spec fn values_with_prefix(entries: Seq<(String, String)>, prefix: Seq<char>) -> Seq<
    Seq<char>,
>
    decreases entries.len(),
{
    if entries.len() == 0 {
        Seq::empty()
    } else {
        let rest = values_with_prefix(entries.drop_last(), prefix);
        if prefix.is_prefix_of(entries.last().0@) {
            rest.push(entries.last().1@)
        } else {
            rest
        }
    }
}

/// The key-value store that keeps players; reading and writing it happen
/// outside this library, which decides what is read and what is written.
#[derive(Debug)]
pub struct Storage;

/// A record that must be written to storage.
#[derive(Debug)]
pub struct StorageWrite {
    pub key: String,
    pub player: Player,
}

impl Storage {
    /// The values of the stored entries whose key starts with `prefix`, in
    /// the order in which the entries are given.
    pub fn get_all_with_prefix(&self, entries: &Vec<(String, String)>, prefix: &str) -> (r: Vec<
        String,
    >)
        ensures
            r@.map_values(|s: String| s@) == values_with_prefix(entries@, prefix@),
    {
        let mut r: Vec<String> = Vec::new();
        let n = entries.len();
        let mut i: usize = 0;
        while i < n
            invariant
                i <= n,
                n == entries@.len(),
                r@.map_values(|s: String| s@) == values_with_prefix(entries@.take(i as int), prefix@),
            decreases n - i,
        {
            assert(entries@.take(i + 1).drop_last() =~= entries@.take(i as int));
            if has_prefix(entries[i].0.as_str(), prefix) {
                r.push(entries[i].1.clone());
                assert(r@.map_values(|s: String| s@) =~= values_with_prefix(
                    entries@.take(i as int),
                    prefix@,
                ).push(entries@[i as int].1@));
            }
            i = i + 1;
        }
        assert(entries@.take(n as int) =~= entries@);
        r
    }
}

/// The game: the players it knows, and the address it serves on.
#[derive(Debug)]
pub struct Game {
    players: Vec<Player>,
    addr: String,
    db: Storage,
}

proof fn lemma_position_found(players: Seq<Player>, login: Seq<char>, i: int)
    requires
        0 <= i < players.len(),
        players[i].login@ == login,
        forall|j: int| 0 <= j < i ==> players[j].login@ != login,
    ensures
        position_of(players, login) == Some(i as nat),
    decreases i,
{
    if i > 0 {
        lemma_position_found(players.drop_first(), login, i - 1);
    }
}

proof fn lemma_position_absent(players: Seq<Player>, login: Seq<char>)
    requires
        forall|j: int| 0 <= j < players.len() ==> players[j].login@ != login,
    ensures
        position_of(players, login) is None,
    decreases players.len(),
{
    if players.len() > 0 {
        lemma_position_absent(players.drop_first(), login);
    }
}

/// A position that `position_of` gives holds a player with that login, and
/// no player before it has the login.
pub proof fn lemma_position_of(players: Seq<Player>, login: Seq<char>)
    ensures
        match position_of(players, login) {
            Some(i) => i < players.len() && players[i as int].login@ == login && forall|j: int|
                0 <= j < i ==> players[j].login@ != login,
            None => forall|j: int| 0 <= j < players.len() ==> players[j].login@ != login,
        },
    decreases players.len(),
{
    if players.len() > 0 {
        lemma_position_of(players.drop_first(), login);
        if players[0].login@ != login {
            match position_of(players.drop_first(), login) {
                Some(k) => {
                    assert forall|j: int| 0 <= j < k + 1 implies players[j].login@ != login by {
                        if j > 0 {
                            assert(players[j] == players.drop_first()[j - 1]);
                        }
                    }
                },
                None => {
                    assert forall|j: int| 0 <= j < players.len() implies players[j].login@
                        != login by {
                        if j > 0 {
                            assert(players[j] == players.drop_first()[j - 1]);
                        }
                    }
                },
            }
        }
    }
}


/// `i` is the position of the first player with login `login`.
pub open spec fn first_with_login(players: Seq<Player>, login: Seq<char>, i: int) -> bool {
    &&& 0 <= i < players.len()
    &&& players[i].login@ == login
    &&& forall|j: int| 0 <= j < i ==> players[j].login@ != login
}

/// Logging in with the right password is greeted by the login that was given
/// and the address it came from, wherever its player stands in the roster:
/// the password is checked against the first player with that login.
pub proof fn lemma_right_password_is_accepted(
    players: Seq<Player>,
    login: Seq<char>,
    password: Seq<char>,
    addr: Seq<char>,
    i: int,
)
    requires
        first_with_login(players, login, i),
        players[i].password_hash@ == password_digest(password),
    ensures
        login_result(players, login, password, addr) == Ok::<Seq<char>, Seq<char>>(
            "Ви успішно авторизувались як: "@ + login + " ("@ + addr + ")"@,
        ),
{
    lemma_position_found(players, login, i);
}

/// Logging in with a wrong password is refused, wherever the player with that
/// login stands in the roster: the password is checked against the first
/// player with that login.
pub proof fn lemma_wrong_password_is_refused(
    players: Seq<Player>,
    login: Seq<char>,
    password: Seq<char>,
    addr: Seq<char>,
    i: int,
)
    requires
        first_with_login(players, login, i),
        players[i].password_hash@ != password_digest(password),
    ensures
        login_result(players, login, password, addr) == Err::<Seq<char>, Seq<char>>(
            "Ви ввели невірний пароль!"@,
        ),
{
    lemma_position_found(players, login, i);
}

/// A login that no player has is registered.
pub proof fn lemma_unknown_login_is_registered(
    players: Seq<Player>,
    login: Seq<char>,
    password: Seq<char>,
    addr: Seq<char>,
)
    requires
        forall|j: int| 0 <= j < players.len() ==> players[j].login@ != login,
    ensures
        login_result(players, login, password, addr) == Ok::<Seq<char>, Seq<char>>(
            "Ви успішно зареєструвались!"@,
        ),
{
    lemma_position_absent(players, login);
}

/// A successful login answer names the login that was given: for every
/// roster in which the login is known, a greeting is exactly the greeting of
/// that login from that address.
pub proof fn lemma_greeting_names_given_login(
    players: Seq<Player>,
    login: Seq<char>,
    password: Seq<char>,
    addr: Seq<char>,
)
    requires
        exists|j: int| 0 <= j < players.len() && players[j].login@ == login,
        login_result(players, login, password, addr) is Ok,
    ensures
        login_result(players, login, password, addr) == Ok::<Seq<char>, Seq<char>>(
            "Ви успішно авторизувались як: "@ + login + " ("@ + addr + ")"@,
        ),
{
    lemma_position_of(players, login);
}

/// A registered player has the given login, the digest of the given
/// password, the address it registered from as its data, and the state of a
/// fresh player; its record is stored under `player_` and its login.
pub proof fn lemma_registration_record(
    p: Player,
    login: Seq<char>,
    digest: Seq<char>,
    addr: Seq<char>,
)
    requires
        registered_as(p, login, digest, addr),
    ensures
        p.login@ == login,
        p.password_hash@ == digest,
        p.data@ == addr,
        p.class == Class::Human && p.hp == 100 && p.damage == 10 && p.balance == 0
            && p.inventory@.len() == 0,
        player_key(login) == "player_"@ + login,
{
}

/// Once a new login has been registered with a password, logging in with that
/// login and the same password is accepted, and the login is found at the
/// position where the player was appended.
pub proof fn lemma_register_then_login(
    before: Seq<Player>,
    after: Seq<Player>,
    login: Seq<char>,
    password: Seq<char>,
    addr: Seq<char>,
    write: Option<StorageWrite>,
    later_addr: Seq<char>,
)
    requires
        position_of(before, login) is None,
        add_player_effect(before, after, login, password, addr, write),
    ensures
        position_of(after, login) == Some(before.len()),
        login_result(after, login, password, later_addr) == Ok::<Seq<char>, Seq<char>>(
            login_reply(login, later_addr),
        ),
{
    lemma_position_of(before, login);
    assert forall|j: int| 0 <= j < before.len() implies after[j].login@ != login by {
        assert(after[j] == after.drop_last()[j]);
    }
    lemma_position_found(after, login, before.len() as int);
}

/// Logging in or registering one login leaves where every other login is
/// found unchanged.
pub proof fn lemma_other_logins_unchanged(
    before: Seq<Player>,
    after: Seq<Player>,
    login: Seq<char>,
    password: Seq<char>,
    addr: Seq<char>,
    write: Option<StorageWrite>,
    other: Seq<char>,
)
    requires
        add_player_effect(before, after, login, password, addr, write),
        other != login,
    ensures
        position_of(after, other) == position_of(before, other),
{
    if position_of(before, login) is None {
        lemma_position_of(before, other);
        match position_of(before, other) {
            Some(i) => {
                assert forall|j: int| 0 <= j <= i implies after[j] == before[j] by {
                    assert(after[j] == after.drop_last()[j]);
                }
                lemma_position_found(after, other, i as int);
            },
            None => {
                assert forall|j: int| 0 <= j < after.len() implies after[j].login@ != other by {
                    if j < before.len() {
                        assert(after[j] == after.drop_last()[j]);
                    }
                }
                lemma_position_absent(after, other);
            },
        }
    }
}

/// Logging in or registering keeps logins distinct: a login is registered
/// only when no player has it.
pub proof fn lemma_logins_stay_distinct(
    before: Seq<Player>,
    after: Seq<Player>,
    login: Seq<char>,
    password: Seq<char>,
    addr: Seq<char>,
    write: Option<StorageWrite>,
)
    requires
        logins_distinct(before),
        add_player_effect(before, after, login, password, addr, write),
    ensures
        logins_distinct(after),
{
    if position_of(before, login) is None {
        lemma_position_of(before, login);
        assert forall|i: int, j: int|
            0 <= i < after.len() && 0 <= j < after.len() && i != j implies after[i].login@
            != after[j].login@ by {
            if i < before.len() {
                assert(after[i] == after.drop_last()[i]);
            }
            if j < before.len() {
                assert(after[j] == after.drop_last()[j]);
            }
        }
    }
}

/// The values read with a prefix are exactly the values of the entries
/// whose key starts with it: a value is among them if and only if some
/// entry with such a key holds it.
pub proof fn lemma_values_with_prefix_members(
    entries: Seq<(String, String)>,
    prefix: Seq<char>,
    v: Seq<char>,
)
    ensures
        values_with_prefix(entries, prefix).contains(v) <==> exists|i: int|
            0 <= i < entries.len() && prefix.is_prefix_of(#[trigger] entries[i].0@)
                && entries[i].1@ == v,
    decreases entries.len(),
{
    if entries.len() > 0 {
        let init = entries.drop_last();
        let rest = values_with_prefix(init, prefix);
        lemma_values_with_prefix_members(init, prefix, v);
        let last = entries.len() - 1;
        if values_with_prefix(entries, prefix).contains(v) {
            if rest.contains(v) {
                let i = choose|i: int|
                    0 <= i < init.len() && prefix.is_prefix_of(#[trigger] init[i].0@)
                        && init[i].1@ == v;
                assert(entries[i] == init[i]);
            } else {
                assert(prefix.is_prefix_of(entries[last].0@));
                let k = choose|k: int|
                    0 <= k < values_with_prefix(entries, prefix).len()
                        && values_with_prefix(entries, prefix)[k] == v;
                assert(k == rest.len());
                assert(entries[last].1@ == v);
            }
        }
        if exists|i: int|
            0 <= i < entries.len() && prefix.is_prefix_of(#[trigger] entries[i].0@)
                && entries[i].1@ == v {
            let i = choose|i: int|
                0 <= i < entries.len() && prefix.is_prefix_of(#[trigger] entries[i].0@)
                    && entries[i].1@ == v;
            if i < last {
                assert(init[i] == entries[i]);
                let k = choose|k: int| 0 <= k < rest.len() && rest[k] == v;
                if prefix.is_prefix_of(entries.last().0@) {
                    assert(rest.push(entries.last().1@)[k] == v);
                }
            } else {
                assert(rest.push(entries.last().1@)[rest.len() as int] == v);
            }
        }
    }
}

/// Reading with a prefix keeps the store's order: the values read from two
/// runs of entries, one after the other, are those of the first run followed
/// by those of the second.
pub proof fn lemma_values_with_prefix_in_order(
    first: Seq<(String, String)>,
    second: Seq<(String, String)>,
    prefix: Seq<char>,
)
    ensures
        values_with_prefix(first + second, prefix) == values_with_prefix(first, prefix)
            + values_with_prefix(second, prefix),
    decreases second.len(),
{
    if second.len() == 0 {
        assert(first + second =~= first);
        assert(values_with_prefix(first, prefix) + values_with_prefix(second, prefix)
            =~= values_with_prefix(first, prefix));
    } else {
        lemma_values_with_prefix_in_order(first, second.drop_last(), prefix);
        assert((first + second).drop_last() =~= first + second.drop_last());
        assert((first + second).last() == second.last());
        let a = values_with_prefix(first, prefix);
        let b = values_with_prefix(second.drop_last(), prefix);
        if prefix.is_prefix_of(second.last().0@) {
            assert((a + b).push(second.last().1@) =~= a + b.push(second.last().1@));
        }
    }
}

/// A player's record, stored under its key, is among the values read back
/// with the prefix `player`, wherever the store lists it.
pub proof fn lemma_stored_player_is_loaded(
    entries: Seq<(String, String)>,
    login: Seq<char>,
    i: int,
)
    requires
        0 <= i < entries.len(),
        entries[i].0@ == player_key(login),
    ensures
        values_with_prefix(entries, "player"@).contains(entries[i].1@),
{
    reveal_strlit("player");
    reveal_strlit("player_");
    assert("player"@ =~= entries[i].0@.subrange(0, 6));
    lemma_values_with_prefix_members(entries, "player"@, entries[i].1@);
}

impl Game {
    /// The players the game knows, in the order they joined.
    pub closed spec fn roster(&self) -> Seq<Player> {
        self.players@
    }

    /// The address the game serves on.
    pub closed spec fn address(&self) -> Seq<char> {
        self.addr@
    }

    /// A game at `addr` that knows the given players (those read from
    /// storage).
    pub fn new(addr: String, players: Vec<Player>) -> (g: Self)
        ensures
            g.roster() == players@,
            g.address() == addr@,
    {
        Game { players, addr, db: Storage }
    }

    /// The server for the game's address.
    pub fn get_server(&self) -> (s: Server)
        ensures
            s.host() == self.address(),
    {
        Server::new(self.addr.clone())
    }

    /// The first player with the given login.
    pub fn get_player(&self, player_name: String) -> (r: Option<&Player>)
        ensures
            match position_of(self.roster(), player_name@) {
                Some(i) => r == Some(&self.roster()[i as int]),
                None => r is None,
            },
    {
        match self.find(&player_name) {
            Some(i) => Some(&self.players[i]),
            None => None,
        }
    }

    fn find(&self, login: &String) -> (r: Option<usize>)
        ensures
            match position_of(self.roster(), login@) {
                Some(i) => r matches Some(k) && k == i,
                None => r is None,
            },
            r matches Some(k) ==> k < self.roster().len(),
    {
        let n = self.players.len();
        let mut i: usize = 0;
        while i < n
            invariant
                i <= n,
                n == self.players@.len(),
                forall|j: int| 0 <= j < i ==> self.players@[j].login@ != login@,
            decreases n - i,
        {
            if self.players[i].login == *login {
                proof {
                    lemma_position_found(self.players@, login@, i as int);
                }
                return Some(i);
            }
            i = i + 1;
        }
        proof {
            lemma_position_absent(self.players@, login@);
        }
        None
    }

    /// The digest under which a password is kept.
    pub fn to_hash(data: String) -> (h: String)
        requires
            hashable(data@),
        ensures
            h@ == password_digest(data@),
            h@.len() == 64,
    {
        hash_text(data.as_str())
    }

    /// Logs a player in, or registers a new one.
    ///
    /// A known login with the right password gets a greeting; with a wrong
    /// password, an error; the roster is unchanged either way. An unknown
    /// login is registered as a fresh player whose data is `addr`, and the
    /// record to store under `player_<login>` is returned beside the reply.
    pub fn add_player(&mut self, player_data: (String, String), addr: String) -> (r: (
        Result<String, String>,
        Option<StorageWrite>,
    ))
        requires
            hashable(player_data.1@),
        ensures
            final(self).address() == old(self).address(),
            result_view(r.0) == login_result(old(self).roster(), player_data.0@, player_data.1@, addr@),
            add_player_effect(
                old(self).roster(),
                final(self).roster(),
                player_data.0@,
                player_data.1@,
                addr@,
                r.1,
            ),
    {
        let (player_name, password) = player_data;
        let password = Self::to_hash(password);
        match self.find(&player_name) {
            Some(i) => {
                if self.players[i].password_hash == password {
                    let mut m = String::from_str("Ви успішно авторизувались як: ");
                    m.append(player_name.as_str());
                    m.append(" (");
                    m.append(addr.as_str());
                    m.append(")");
                    (Ok(m), None)
                } else {
                    (Err(String::from_str("Ви ввели невірний пароль!")), None)
                }
            },
            None => {
                let mut key = String::from_str("player_");
                key.append(player_name.as_str());
                let stored = Player::new(player_name.clone(), password.clone(), addr.clone());
                let player = Player::new(player_name, password, addr);
                self.players.push(player);
                assert(self.players@.drop_last() =~= old(self).players@);
                (
                    Ok(String::from_str("Ви успішно зареєструвались!")),
                    Some(StorageWrite { key, player: stored }),
                )
            },
        }
    }
}

} // verus!
