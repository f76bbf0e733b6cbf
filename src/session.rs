use vstd::prelude::*;
use crate::dialect::DbType;
use crate::text::{decimal, push_decimal, same_text};

verus! {

/// Declares `std::time::Instant`, carried opaquely as a session's creation time.
#[verifier::external_type_specification]
#[verifier::external_body]
pub struct ExInstant(std::time::Instant);

/// Credentials and target of a connect request.
#[derive(Debug, Clone)]
pub struct ConnectRequest {
    pub host: String,
    pub port: u16,
    pub database: String,
    pub username: String,
    pub password: String,
    pub db_type: DbType,
}

/// What a successful connect reports.
#[derive(Debug, Clone)]
pub struct ConnectResponse {
    pub token: String,
    pub database: String,
    pub db_type: DbType,
}

/// The connection state reported to a caller.
#[derive(Debug, Clone)]
pub struct StatusResponse {
    pub connected: bool,
    pub database: Option<String>,
    pub db_type: Option<DbType>,
}

/// The database a session is bound to.
#[derive(Debug, Clone)]
pub struct ConnectionInfo {
    pub database: String,
    pub db_type: DbType,
}

/// A live binding of a token to a pool handle `P`, a database and its dialect.
pub struct Session<P> {
    pub token: String,
    pub pool: P,
    pub database: String,
    pub db_type: DbType,
    pub created_at: std::time::Instant,
}

/// The host that stands for the machine's own loopback address inside a container.
pub const CONTAINER_HOST: &'static str = "host.docker.internal";

/// The host dialled: inside a container, `localhost` and `127.0.0.1` mean the container's
/// host machine.
pub open spec fn dialled_host(host: Seq<char>, in_container: bool) -> Seq<char> {
    if in_container && (host == "localhost"@ || host == "127.0.0.1"@) {
        CONTAINER_HOST@
    } else {
        host
    }
}

/// The option that lets an SQLite connection create a database file that does not exist yet.
pub const SQLITE_CREATE_MODE: &'static str = "?mode=rwc";

/// The driver URL for a connect request. An SQLite database file is created when missing.
pub open spec fn connection_url(req: ConnectRequest, in_container: bool) -> Seq<char> {
    let server = req.username@ + ":"@ + req.password@ + "@"@ + dialled_host(req.host@, in_container)
        + ":"@ + decimal(req.port as nat) + "/"@ + req.database@;
    match req.db_type {
        DbType::Postgres => "postgres://"@ + server,
        DbType::Mysql => "mysql://"@ + server,
        DbType::Sqlite => "sqlite:"@ + req.database@ + SQLITE_CREATE_MODE@,
    }
}

impl ConnectRequest {
    /// The driver URL for this request; `in_container` tells whether the gateway runs in a
    /// container, where loopback hosts are redirected to the host machine.
    pub fn connection_string(&self, in_container: bool) -> (r: String)
        ensures
            r@ == connection_url(*self, in_container),
    {
        let scheme = match self.db_type {
            DbType::Postgres => "postgres://",
            DbType::Mysql => "mysql://",
            DbType::Sqlite => {
                let mut s = String::from_str("sqlite:");
                s.append(self.database.as_str());
                s.append(SQLITE_CREATE_MODE);
                return s;
            },
        };
        let mut s = String::from_str(scheme);
        s.append(self.username.as_str());
        s.append(":");
        s.append(self.password.as_str());
        s.append("@");
        let loopback = same_text(self.host.as_str(), "localhost") || same_text(
            self.host.as_str(),
            "127.0.0.1",
        );
        if in_container && loopback {
            s.append(CONTAINER_HOST);
        } else {
            s.append(self.host.as_str());
        }
        s.append(":");
        push_decimal(&mut s, self.port as u64);
        s.append("/");
        s.append(self.database.as_str());
        assert(s@ =~= connection_url(*self, in_container));
        s
    }
}

} // verus!

verus! {

/// Why a request was not matched to a session.
#[derive(Debug, Clone, Copy, PartialEq, Eq, Structural)]
pub enum AuthError {
    /// No authorization header.
    MissingHeader,
    /// A header without the `Bearer ` scheme.
    InvalidFormat,
    /// A token that names no live session.
    InvalidSession,
}

impl AuthError {
    /// The text reported to the caller.
    pub fn message(&self) -> (r: String)
        ensures
            r@ == match *self {
                AuthError::MissingHeader => "Missing authorization header"@,
                AuthError::InvalidFormat => "Invalid authorization format"@,
                AuthError::InvalidSession => "Invalid or expired session"@,
            },
    {
        match self {
            AuthError::MissingHeader => String::from_str("Missing authorization header"),
            AuthError::InvalidFormat => String::from_str("Invalid authorization format"),
            AuthError::InvalidSession => String::from_str("Invalid or expired session"),
        }
    }
}

/// The scheme that precedes a token in the authorization header.
pub const BEARER_PREFIX: &'static str = "Bearer ";

/// The token carried by an authorization header, if it uses the bearer scheme.
pub open spec fn bearer_token(header: Seq<char>) -> Option<Seq<char>> {
    let n = BEARER_PREFIX@.len() as int;
    if n <= header.len() && header.take(n) == BEARER_PREFIX@ {
        Some(header.skip(n))
    } else {
        None
    }
}

/// The token carried by an authorization header, if it uses the bearer scheme.
pub fn parse_bearer(header: &str) -> (r: Option<String>)
    ensures
        r matches Some(t) ==> bearer_token(header@) == Some(t@),
        r is None ==> bearer_token(header@) is None,
{
    let n = BEARER_PREFIX.unicode_len();
    let m = header.unicode_len();
    if m < n {
        return None;
    }
    let head = header.substring_char(0, n);
    if !same_text(head, BEARER_PREFIX) {
        return None;
    }
    Some(String::from_str(header.substring_char(n, m)))
}

/// Whether no two sessions share a token.
pub open spec fn unique_tokens<P>(s: Seq<Session<P>>) -> bool {
    forall|i: int, j: int|
        0 <= i < s.len() && 0 <= j < s.len() && i != j ==> (#[trigger] s[i]).token@ != (#[trigger] s[j]).token@
}

/// Whether some session in `s` holds token `t`.
pub open spec fn holds_token<P>(s: Seq<Session<P>>, t: Seq<char>) -> bool {
    exists|i: int| 0 <= i < s.len() && (#[trigger] s[i]).token@ == t
}

/// The sessions of `s` keyed by token.
pub open spec fn token_map<P>(s: Seq<Session<P>>) -> Map<Seq<char>, Session<P>> {
    Map::new(
        |t: Seq<char>| holds_token(s, t),
        |t: Seq<char>| s[choose|i: int| 0 <= i < s.len() && (#[trigger] s[i]).token@ == t],
    )
}

proof fn lemma_token_map_at<P>(s: Seq<Session<P>>, i: int)
    requires
        unique_tokens(s),
        0 <= i < s.len(),
    ensures
        token_map(s).contains_key(s[i].token@),
        token_map(s)[s[i].token@] == s[i],
{
    let t = s[i].token@;
    assert(holds_token(s, t));
    let j = choose|j: int| 0 <= j < s.len() && (#[trigger] s[j]).token@ == t;
    assert(j == i);
}

proof fn lemma_token_map_push<P>(s: Seq<Session<P>>, x: Session<P>)
    requires
        unique_tokens(s),
        !holds_token(s, x.token@),
    ensures
        unique_tokens(s.push(x)),
        token_map(s.push(x)) == token_map(s).insert(x.token@, x),
{
    let s2 = s.push(x);
    assert forall|i: int, j: int|
        0 <= i < s2.len() && 0 <= j < s2.len() && i != j implies (#[trigger] s2[i]).token@ != (#[trigger] s2[j]).token@ by {
        if i < s.len() && j < s.len() {
            assert(s2[i] == s[i] && s2[j] == s[j]);
        } else if i < s.len() {
            assert(s2[i] == s[i]);
        } else {
            assert(s2[j] == s[j]);
        }
    }
    let m = token_map(s).insert(x.token@, x);
    assert forall|t: Seq<char>| #[trigger] token_map(s2).contains_key(t) <==> m.contains_key(t) by {
        if holds_token(s2, t) && t != x.token@ {
            let i = choose|i: int| 0 <= i < s2.len() && (#[trigger] s2[i]).token@ == t;
            assert(s[i] == s2[i]);
            assert(holds_token(s, t));
        }
        if holds_token(s, t) {
            let i = choose|i: int| 0 <= i < s.len() && (#[trigger] s[i]).token@ == t;
            assert(s2[i] == s[i]);
        }
        if t == x.token@ {
            assert(s2[s.len() as int] == x);
        }
    }
    assert forall|t: Seq<char>| #[trigger] token_map(s2).contains_key(t) implies token_map(s2)[t] == m[t] by {
        let i = choose|i: int| 0 <= i < s2.len() && (#[trigger] s2[i]).token@ == t;
        lemma_token_map_at(s2, i);
        if i < s.len() {
            assert(s2[i] == s[i]);
            lemma_token_map_at(s, i);
        }
    }
    assert(token_map(s2) =~= m);
}

proof fn lemma_token_map_update<P>(s: Seq<Session<P>>, k: int, x: Session<P>)
    requires
        unique_tokens(s),
        0 <= k < s.len(),
        s[k].token@ == x.token@,
    ensures
        unique_tokens(s.update(k, x)),
        token_map(s.update(k, x)) == token_map(s).insert(x.token@, x),
{
    let s2 = s.update(k, x);
    assert forall|i: int, j: int|
        0 <= i < s2.len() && 0 <= j < s2.len() && i != j implies (#[trigger] s2[i]).token@ != (#[trigger] s2[j]).token@ by {
        assert(s2[i].token@ == s[i].token@);
        assert(s2[j].token@ == s[j].token@);
    }
    let m = token_map(s).insert(x.token@, x);
    assert forall|t: Seq<char>| #[trigger] token_map(s2).contains_key(t) <==> m.contains_key(t) by {
        if holds_token(s2, t) {
            let i = choose|i: int| 0 <= i < s2.len() && (#[trigger] s2[i]).token@ == t;
            assert(s[i].token@ == s2[i].token@);
            assert(holds_token(s, t));
        }
        if holds_token(s, t) {
            let i = choose|i: int| 0 <= i < s.len() && (#[trigger] s[i]).token@ == t;
            assert(s2[i].token@ == s[i].token@);
        }
        if t == x.token@ {
            assert(s2[k] == x);
        }
    }
    assert forall|t: Seq<char>| #[trigger] token_map(s2).contains_key(t) implies token_map(s2)[t] == m[t] by {
        let i = choose|i: int| 0 <= i < s2.len() && (#[trigger] s2[i]).token@ == t;
        lemma_token_map_at(s2, i);
        if i != k {
            assert(s2[i] == s[i]);
            lemma_token_map_at(s, i);
        }
    }
    assert(token_map(s2) =~= m);
}

proof fn lemma_token_map_remove<P>(s: Seq<Session<P>>, k: int)
    requires
        unique_tokens(s),
        0 <= k < s.len(),
    ensures
        unique_tokens(s.remove(k)),
        token_map(s.remove(k)) == token_map(s).remove(s[k].token@),
{
    let s2 = s.remove(k);
    let old_index = |i: int| if i < k { i } else { i + 1 };
    assert forall|i: int| 0 <= i < s2.len() implies #[trigger] s2[i] == s[old_index(i)] by {}
    assert forall|i: int, j: int|
        0 <= i < s2.len() && 0 <= j < s2.len() && i != j implies (#[trigger] s2[i]).token@ != (#[trigger] s2[j]).token@ by {
        assert(s2[i] == s[old_index(i)]);
        assert(s2[j] == s[old_index(j)]);
    }
    let m = token_map(s).remove(s[k].token@);
    assert forall|t: Seq<char>| #[trigger] token_map(s2).contains_key(t) <==> m.contains_key(t) by {
        if holds_token(s2, t) {
            let i = choose|i: int| 0 <= i < s2.len() && (#[trigger] s2[i]).token@ == t;
            assert(s2[i] == s[old_index(i)]);
            assert(holds_token(s, t));
            assert(old_index(i) != k);
        }
        if holds_token(s, t) && t != s[k].token@ {
            let i = choose|i: int| 0 <= i < s.len() && (#[trigger] s[i]).token@ == t;
            assert(i != k);
            let i2 = if i < k { i } else { i - 1 };
            assert(s2[i2] == s[old_index(i2)]);
        }
    }
    assert forall|t: Seq<char>| #[trigger] token_map(s2).contains_key(t) implies token_map(s2)[t] == m[t] by {
        let i = choose|i: int| 0 <= i < s2.len() && (#[trigger] s2[i]).token@ == t;
        lemma_token_map_at(s2, i);
        assert(s2[i] == s[old_index(i)]);
        lemma_token_map_at(s, old_index(i));
    }
    assert(token_map(s2) =~= m);
}

} // verus!

verus! {

/// Live sessions keyed by token. At most one session holds a token; removal is immediate
/// and total.
pub struct SessionRegistry<P> {
    sessions: Vec<Session<P>>,
}

impl<P> View for SessionRegistry<P> {
    type V = Map<Seq<char>, Session<P>>;

    closed spec fn view(&self) -> Map<Seq<char>, Session<P>> {
        token_map(self.sessions@)
    }
}

impl<P> SessionRegistry<P> {
    /// No two sessions share a token.
    #[verifier::type_invariant]
    spec fn tokens_unique(&self) -> bool {
        unique_tokens(self.sessions@)
    }

    /// Moves the sessions out, leaving the registry empty.
    fn take_sessions(&mut self) -> (r: Vec<Session<P>>)
        ensures
            r@ == old(self).sessions@,
            unique_tokens(r@),
            token_map(r@) == old(self)@,
            final(self)@ == Map::<Seq<char>, Session<P>>::empty(),
    {
        proof {
            use_type_invariant(&*self);
        }
        let mut taken = SessionRegistry { sessions: Vec::new() };
        std::mem::swap(self, &mut taken);
        assert(self@ =~= Map::<Seq<char>, Session<P>>::empty());
        proof {
            use_type_invariant(&taken);
        }
        taken.sessions
    }

    /// A registry with no sessions.
    pub fn new() -> (r: Self)
        ensures
            r@ == Map::<Seq<char>, Session<P>>::empty(),
    {
        let r = SessionRegistry { sessions: Vec::new() };
        assert(r@ =~= Map::<Seq<char>, Session<P>>::empty());
        r
    }

    /// The number of live sessions.
    pub fn len(&self) -> (r: usize)
        ensures
            r == self@.len(),
    {
        proof {
            use_type_invariant(self);
            self.lemma_len();
        }
        self.sessions.len()
    }

    proof fn lemma_len(&self)
        requires
            unique_tokens(self.sessions@),
        ensures
            self@.len() == self.sessions@.len(),
            self@.dom().finite(),
    {
        let s = self.sessions@;
        let tokens = s.map_values(|x: Session<P>| x.token@);
        assert(tokens.no_duplicates()) by {
            assert forall|i: int, j: int| 0 <= i < tokens.len() && 0 <= j < tokens.len() && i != j
                implies tokens[i] != tokens[j] by {
                assert(s[i].token@ != s[j].token@);
            }
        }
        assert(self@.dom() =~= tokens.to_set()) by {
            assert forall|t: Seq<char>| self@.dom().contains(t) <==> tokens.to_set().contains(t) by {
                if self@.dom().contains(t) {
                    let i = choose|i: int| 0 <= i < s.len() && (#[trigger] s[i]).token@ == t;
                    assert(tokens[i] == t);
                }
                if tokens.to_set().contains(t) {
                    let i = choose|i: int| 0 <= i < tokens.len() && tokens[i] == t;
                    assert(s[i].token@ == t);
                    assert(holds_token(s, t));
                }
            }
        }
        tokens.unique_seq_to_set();
    }

    fn find(&self, token: &str) -> (r: Option<usize>)
        ensures
            unique_tokens(self.sessions@),
            r matches Some(i) ==> i < self.sessions@.len() && self.sessions@[i as int].token@ == token@,
            r is None ==> !holds_token(self.sessions@, token@),
    {
        proof {
            use_type_invariant(self);
        }
        let mut i: usize = 0;
        while i < self.sessions.len()
            invariant
                unique_tokens(self.sessions@),
                i <= self.sessions@.len(),
                forall|j: int| 0 <= j < i ==> (#[trigger] self.sessions@[j]).token@ != token@,
            decreases self.sessions@.len() - i,
        {
            if same_text(self.sessions[i].token.as_str(), token) {
                return Some(i);
            }
            i = i + 1;
        }
        None
    }

    /// The session holding `token`, if any.
    pub fn get(&self, token: &str) -> (r: Option<&Session<P>>)
        ensures
            r matches Some(s) ==> self@.contains_key(token@) && self@[token@] == *s,
            r is None ==> !self@.contains_key(token@),
    {
        match self.find(token) {
            Some(i) => {
                proof {
                    lemma_token_map_at(self.sessions@, i as int);
                }
                Some(&self.sessions[i])
            },
            None => None,
        }
    }

    /// Binds the session's token to it, replacing any session that held the same token.
    pub fn insert(&mut self, session: Session<P>)
        ensures
            final(self)@ == old(self)@.insert(session.token@, session),
    {
        let found = self.find(session.token.as_str());
        let mut sessions = self.take_sessions();
        match found {
            Some(i) => {
                proof {
                    lemma_token_map_update(sessions@, i as int, session);
                }
                sessions.set(i, session);
            },
            None => {
                proof {
                    lemma_token_map_push(sessions@, session);
                }
                sessions.push(session);
            },
        }
        *self = SessionRegistry { sessions };
    }

    /// Removes the session holding `token`; removing an absent token changes nothing.
    pub fn remove(&mut self, token: &str)
        ensures
            final(self)@ == old(self)@.remove(token@),
    {
        match self.find(token) {
            Some(i) => {
                let mut sessions = self.take_sessions();
                proof {
                    lemma_token_map_remove(sessions@, i as int);
                }
                sessions.remove(i);
                *self = SessionRegistry { sessions };
            },
            None => {
                assert(self@ =~= old(self)@.remove(token@));
            },
        }
    }
}

} // verus!

verus! {

/// Whether `s` is a UUID in hyphenated lowercase form: 36 characters, hyphens at 8, 13,
/// 18 and 23, lowercase hexadecimal digits elsewhere.
pub open spec fn hyphenated_uuid(s: Seq<char>) -> bool {
    &&& s.len() == 36
    &&& forall|i: int|
        0 <= i < 36 ==> if i == 8 || i == 13 || i == 18 || i == 23 {
            #[trigger] s[i] == '-'
        } else {
            ('0' <= s[i] <= '9' || 'a' <= s[i] <= 'f')
        }
}

/// Relies on `uuid::Uuid::new_v4` and the `Display` of `Uuid`: a random UUID in the
/// hyphenated lowercase form.
#[verifier::external_body]
fn random_uuid() -> (r: String)
    ensures
        hyphenated_uuid(r@),
{
    uuid::Uuid::new_v4().to_string()
}

/// The outcome of resolving an authorization header against the sessions `m`.
pub open spec fn resolution<P>(m: Map<Seq<char>, Session<P>>, header: Option<Seq<char>>) -> Result<Session<P>, AuthError> {
    match header {
        None => Err(AuthError::MissingHeader),
        Some(h) => match bearer_token(h) {
            None => Err(AuthError::InvalidFormat),
            Some(t) => if m.contains_key(t) {
                Ok(m[t])
            } else {
                Err(AuthError::InvalidSession)
            },
        },
    }
}

/// The sessions left after a disconnect carrying `header`: the bearer token, when there is
/// a non-empty one, no longer resolves.
pub open spec fn disconnected<P>(m: Map<Seq<char>, Session<P>>, header: Option<Seq<char>>) -> Map<Seq<char>, Session<P>> {
    match header {
        Some(h) => match bearer_token(h) {
            Some(t) => if t.len() > 0 {
                m.remove(t)
            } else {
                m
            },
            None => m,
        },
        None => m,
    }
}

/// The view of an optional header.
pub open spec fn header_view(h: Option<&str>) -> Option<Seq<char>> {
    match h {
        Some(s) => Some(s@),
        None => None,
    }
}

impl<P> Session<P> {
    /// The database and dialect this session is bound to.
    pub fn connection_info(&self) -> (r: ConnectionInfo)
        ensures
            r.database == self.database,
            r.db_type == self.db_type,
    {
        ConnectionInfo { database: self.database.clone(), db_type: self.db_type }
    }

    /// The connection state of a caller holding this session.
    pub fn status(&self) -> (r: StatusResponse)
        ensures
            r.connected,
            r.database matches Some(d) && d@ == self.database@,
            r.db_type == Some(self.db_type),
    {
        StatusResponse {
            connected: true,
            database: Some(self.database.clone()),
            db_type: Some(self.db_type),
        }
    }
}

impl<P> SessionRegistry<P> {
    /// Binds a freshly minted random token to a newly opened pool and reports it.
    pub fn open_session(
        &mut self,
        pool: P,
        database: String,
        db_type: DbType,
        created_at: std::time::Instant,
    ) -> (r: ConnectResponse)
        ensures
            hyphenated_uuid(r.token@),
            r.database == database,
            r.db_type == db_type,
            final(self)@ == old(self)@.insert(r.token@, final(self)@[r.token@]),
            final(self)@[r.token@].token@ == r.token@,
            final(self)@[r.token@].pool == pool,
            final(self)@[r.token@].database == database,
            final(self)@[r.token@].db_type == db_type,
            final(self)@[r.token@].created_at == created_at,
    {
        let token = random_uuid();
        let session = Session {
            token: token.clone(),
            pool,
            database: database.clone(),
            db_type,
            created_at,
        };
        self.insert(session);
        ConnectResponse { token, database, db_type }
    }

    /// The session named by an authorization header `Bearer <token>`.
    pub fn resolve(&self, authorization: Option<&str>) -> (r: Result<&Session<P>, AuthError>)
        ensures
            match r {
                Ok(s) => resolution(self@, header_view(authorization)) == Ok::<Session<P>, AuthError>(*s),
                Err(e) => resolution(self@, header_view(authorization)) == Err::<Session<P>, AuthError>(e),
            },
    {
        let header = match authorization {
            Some(h) => h,
            None => return Err(AuthError::MissingHeader),
        };
        let token = match parse_bearer(header) {
            Some(t) => t,
            None => return Err(AuthError::InvalidFormat),
        };
        match self.get(token.as_str()) {
            Some(s) => Ok(s),
            None => Err(AuthError::InvalidSession),
        }
    }

    /// Ends the session named by an authorization header, if any; it always succeeds.
    pub fn disconnect(&mut self, authorization: Option<&str>) -> (r: StatusResponse)
        ensures
            final(self)@ == disconnected(old(self)@, header_view(authorization)),
            !r.connected,
            r.database is None,
            r.db_type is None,
    {
        if let Some(h) = authorization {
            if let Some(t) = parse_bearer(h) {
                if t.as_str().unicode_len() > 0 {
                    self.remove(t.as_str());
                }
            }
        }
        StatusResponse { connected: false, database: None, db_type: None }
    }
}

/// The session lifecycle: once a session is bound to a minted token, a bearer header with
/// that token resolves to it; after a disconnect with that header it no longer resolves;
/// and a disconnect naming an unknown token changes nothing.
pub proof fn session_lifecycle<P>(m: Map<Seq<char>, Session<P>>, s: Session<P>, unknown: Seq<char>)
    requires
        hyphenated_uuid(s.token@),
    ensures
        resolution(m.insert(s.token@, s), Some(BEARER_PREFIX@ + s.token@)) == Ok::<Session<P>, AuthError>(s),
        resolution(
            disconnected(m.insert(s.token@, s), Some(BEARER_PREFIX@ + s.token@)),
            Some(BEARER_PREFIX@ + s.token@),
        ) == Err::<Session<P>, AuthError>(AuthError::InvalidSession),
        !m.contains_key(unknown) ==> disconnected(m, Some(BEARER_PREFIX@ + unknown)) == m,
{
    let n = BEARER_PREFIX@.len() as int;
    let h = BEARER_PREFIX@ + s.token@;
    assert(h.take(n) =~= BEARER_PREFIX@);
    assert(h.skip(n) =~= s.token@);
    let u = BEARER_PREFIX@ + unknown;
    assert(u.take(n) =~= BEARER_PREFIX@);
    assert(u.skip(n) =~= unknown);
    assert(s.token@.len() > 0);
    if !m.contains_key(unknown) {
        assert(m.remove(unknown) =~= m);
    }
}

} // verus!
