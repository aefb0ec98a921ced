//! The SQL API explorer panel's state: the saved hosts, the form that adds one,
//! and the tree of hosts, schemas and tables with what is being loaded.
//! Each method takes one user action or one finished load and says which load,
//! if any, to start next.
use vstd::prelude::*;
use crate::keyed::{KeySet, KeyedLists, str_eq};
use crate::models::{AuthConfig, HostConfig, is_no_auth};
use crate::sql::opt_view;
use crate::text::{
    char_is_alphanumeric, decimal, is_alphanumeric, push_char, push_decimal, push_str,
    to_owned_string, trim, trim_spec,
};

verus! {

/// What the add-host form holds when it is saved; a field is `None` when its
/// input has not been created.
#[derive(Debug, Clone, PartialEq)]
pub struct NewHostInputs {
    pub host_url: Option<String>,
    pub bearer_token: Option<String>,
    pub header_name: Option<String>,
    pub header_value: Option<String>,
    pub username: Option<String>,
    pub password: Option<String>,
}

/// The state of the explorer panel.
pub struct ExplorerState {
    pub hosts: Vec<HostConfig>,
    pub status: String,
    pub show_add_form: bool,
    pub new_auth_type: String,
    /// Hosts whose schemas are shown.
    pub expanded_hosts: KeySet<String>,
    /// The schemas loaded for each host.
    pub schemas: KeyedLists<String>,
    /// Hosts whose schemas are being loaded.
    pub loading_hosts: KeySet<String>,
    /// The tables loaded for each (host, schema).
    pub tables: KeyedLists<(String, String)>,
    /// (host, schema) pairs whose tables are shown.
    pub expanded_schemas: KeySet<(String, String)>,
    /// `host|schema` keys whose tables are being loaded.
    pub loading_tables: KeySet<String>,
}

/// A DDL tab to open: the host to ask, the tab's title and its text until the DDL arrives.
#[derive(Debug, Clone, PartialEq)]
pub struct DdlJob {
    pub host: HostConfig,
    pub title: String,
    pub loading_text: String,
}

/// The first saved host named `name`.
pub open spec fn find_host_spec(hosts: Seq<HostConfig>, name: Seq<char>) -> Option<HostConfig>
    decreases hosts.len(),
{
    if hosts.len() == 0 {
        None
    } else if hosts[0].name@ == name {
        Some(hosts[0])
    } else {
        find_host_spec(hosts.drop_first(), name)
    }
}

/// A host is found by its exact name: what is found is a saved host with that
/// very name, the first of them; nothing is found exactly when no saved host
/// has that name.
pub proof fn lemma_find_host_exact(hosts: Seq<HostConfig>, name: Seq<char>)
    ensures
        find_host_spec(hosts, name) matches Some(h) ==> h.name@ == name && exists|i: int|
            0 <= i < hosts.len() && hosts[i] == h && forall|j: int|
                0 <= j < i ==> hosts[j].name@ != name,
        find_host_spec(hosts, name) is None <==> forall|i: int|
            0 <= i < hosts.len() ==> hosts[i].name@ != name,
    decreases hosts.len(),
{
    if hosts.len() > 0 {
        let rest = hosts.drop_first();
        lemma_find_host_exact(rest, name);
        if hosts[0].name@ == name {
            assert(hosts[0] == hosts[0] && forall|j: int| 0 <= j < 0 ==> hosts[j].name@ != name);
        } else {
            if find_host_spec(rest, name) is Some {
                let h = find_host_spec(rest, name)->0;
                let i = choose|i: int|
                    0 <= i < rest.len() && rest[i] == h && forall|j: int|
                        0 <= j < i ==> rest[j].name@ != name;
                assert(hosts[i + 1] == h);
                assert forall|j: int| 0 <= j < i + 1 implies hosts[j].name@ != name by {
                    if j > 0 {
                        assert(hosts[j] == rest[j - 1]);
                    }
                }
            } else {
                assert forall|i: int| 0 <= i < hosts.len() implies hosts[i].name@ != name by {
                    if i > 0 {
                        assert(hosts[i] == rest[i - 1]);
                    }
                }
            }
            if forall|i: int| 0 <= i < hosts.len() ==> hosts[i].name@ != name {
                assert forall|i: int| 0 <= i < rest.len() implies rest[i].name@ != name by {
                    assert(rest[i] == hosts[i + 1]);
                }
            }
        }
    }
}

/// The key under which the loading of a schema's tables is recorded.
pub open spec fn loading_key_spec(host: Seq<char>, schema: Seq<char>) -> Seq<char> {
    host + "|"@ + schema
}

/// `s` with `k` added if it was absent and removed if it was present.
pub open spec fn toggle_set<A>(s: Set<A>, k: A) -> Set<A> {
    if s.contains(k) {
        s.remove(k)
    } else {
        s.insert(k)
    }
}

/// Toggling the same key twice gives the set back: expanding and collapsing a
/// tree node (host or schema) returns the tree to how it was shown.
pub proof fn lemma_toggle_twice<A>(s: Set<A>, k: A)
    ensures
        toggle_set(toggle_set(s, k), k) == s,
{
    if s.contains(k) {
        assert(s.remove(k).insert(k) =~= s);
    } else {
        assert(s.insert(k).remove(k) =~= s);
    }
}

/// `after` holds the schemas `loaded` for host `name` in place of what
/// `before` held for it, and the other hosts' schemas as they were.
pub open spec fn schemas_loaded(
    before: ExplorerState,
    after: ExplorerState,
    name: Seq<char>,
    loaded: Seq<String>,
) -> bool {
    after.schemas@ == before.schemas@.insert(name, loaded)
}

/// `after` holds the tables `loaded` for `schema` on `host` in place of what
/// `before` held for them, and the other schemas' tables as they were.
pub open spec fn tables_loaded(
    before: ExplorerState,
    after: ExplorerState,
    host: Seq<char>,
    schema: Seq<char>,
    loaded: Seq<String>,
) -> bool {
    after.tables@ == before.tables@.insert((host, schema), loaded)
}

/// `after` is `before` without the host at `index` and without everything
/// the tree held under its name.
pub open spec fn host_deleted(before: ExplorerState, after: ExplorerState, index: int) -> bool {
    let name = before.hosts@[index].name@;
    &&& after.hosts@ == before.hosts@.remove(index)
    &&& after.expanded_hosts@ == before.expanded_hosts@.remove(name)
    &&& after.schemas@ == before.schemas@.remove(name)
    &&& after.loading_hosts@ == before.loading_hosts@.remove(name)
    &&& after.tables@ == before.tables@.restrict(
        before.tables@.dom().filter(|k: (Seq<char>, Seq<char>)| k.0 != name),
    )
    &&& after.expanded_schemas@ == before.expanded_schemas@.filter(
        |k: (Seq<char>, Seq<char>)| k.0 != name,
    )
    &&& after.loading_tables@ == before.loading_tables@.filter(
        |k: Seq<char>| !crate::keyed::is_prefix(name + "|"@, k),
    )
}

/// After a load of host `name`'s schemas succeeds, the panel shows exactly
/// the loaded list under `name` (what `schemas_of` then returns), and every
/// other host shows the schemas it showed before.
pub proof fn lemma_loaded_schemas_are_shown(
    before: ExplorerState,
    after: ExplorerState,
    name: Seq<char>,
    loaded: Seq<String>,
    other: Seq<char>,
)
    requires
        schemas_loaded(before, after, name, loaded),
        other != name,
    ensures
        after.schemas@.contains_key(name),
        after.schemas@[name] == loaded,
        after.schemas@.contains_key(other) == before.schemas@.contains_key(other),
        before.schemas@.contains_key(other) ==> after.schemas@[other] == before.schemas@[other],
{
}

/// After a load of the tables of `schema` on `host` succeeds, the panel shows
/// exactly the loaded list there (what `tables_of` then returns), and every
/// other (host, schema) shows the tables it showed before.
pub proof fn lemma_loaded_tables_are_shown(
    before: ExplorerState,
    after: ExplorerState,
    host: Seq<char>,
    schema: Seq<char>,
    loaded: Seq<String>,
    other: (Seq<char>, Seq<char>),
)
    requires
        tables_loaded(before, after, host, schema, loaded),
        other != (host, schema),
    ensures
        after.tables@.contains_key((host, schema)),
        after.tables@[(host, schema)] == loaded,
        after.tables@.contains_key(other) == before.tables@.contains_key(other),
        before.tables@.contains_key(other) ==> after.tables@[other] == before.tables@[other],
{
}

/// A deleted host leaves nothing of its tree: it is not expanded, has no
/// schemas and is not loading; none of its schemas is expanded, has tables
/// or is loading tables. Another host keeps its expansion, schemas, loading
/// mark, tables and expanded schemas; its table loads stay too, unless their
/// key starts with the deleted name and `|`.
pub proof fn lemma_deleted_host_leaves_nothing(
    before: ExplorerState,
    after: ExplorerState,
    index: int,
    schema: Seq<char>,
    other: Seq<char>,
    other_schema: Seq<char>,
)
    requires
        0 <= index < before.hosts@.len(),
        host_deleted(before, after, index),
        other != before.hosts@[index].name@,
    ensures
        ({
            let name = before.hosts@[index].name@;
            &&& !after.expanded_hosts@.contains(name)
            &&& !after.schemas@.contains_key(name)
            &&& !after.loading_hosts@.contains(name)
            &&& !after.tables@.contains_key((name, schema))
            &&& !after.expanded_schemas@.contains((name, schema))
            &&& !after.loading_tables@.contains(loading_key_spec(name, schema))
            &&& after.expanded_hosts@.contains(other) == before.expanded_hosts@.contains(other)
            &&& after.schemas@.contains_key(other) == before.schemas@.contains_key(other)
            &&& (before.schemas@.contains_key(other) ==> after.schemas@[other]
                == before.schemas@[other])
            &&& after.loading_hosts@.contains(other) == before.loading_hosts@.contains(other)
            &&& after.tables@.contains_key((other, other_schema)) == before.tables@.contains_key(
                (other, other_schema),
            )
            &&& (before.tables@.contains_key((other, other_schema)) ==> after.tables@[(
                other,
                other_schema,
            )] == before.tables@[(other, other_schema)])
            &&& after.expanded_schemas@.contains((other, other_schema))
                == before.expanded_schemas@.contains((other, other_schema))
            &&& after.loading_tables@.contains(loading_key_spec(other, other_schema)) == (
            before.loading_tables@.contains(loading_key_spec(other, other_schema))
                && !crate::keyed::is_prefix(name + "|"@, loading_key_spec(other, other_schema)))
        }),
{
    let name = before.hosts@[index].name@;
    let key = loading_key_spec(name, schema);
    let p = name + "|"@;
    assert(key.take(p.len() as int) =~= p);
}

/// The trimmed text of an input that is not blank.
pub open spec fn filled(s: Option<String>) -> Option<Seq<char>> {
    match s {
        Some(t) => if trim_spec(t@).len() > 0 {
            Some(trim_spec(t@))
        } else {
            None
        },
        None => None,
    }
}

/// The trimmed text of an input.
pub open spec fn trimmed(s: Option<String>) -> Option<Seq<char>> {
    match s {
        Some(t) => Some(trim_spec(t@)),
        None => None,
    }
}

/// The URL typed into the add-host form, trimmed; empty without an input.
pub open spec fn url_input(inputs: NewHostInputs) -> Seq<char> {
    match inputs.host_url {
        Some(t) => trim_spec(t@),
        None => seq![],
    }
}

/// Whether `auth` is what the add-host form builds for the authentication
/// type `ty` from `inputs`.
pub open spec fn is_new_auth(auth: Option<AuthConfig>, ty: Seq<char>, inputs: NewHostInputs) -> bool {
    if ty == "bearer"@ {
        (auth matches Some(a) && a.auth_type@ == "bearer"@ && opt_view(a.token) == filled(
            inputs.bearer_token,
        ) && a.header_name is None && a.header_value is None && a.username is None
            && a.password is None)
    } else if ty == "custom-header"@ {
        (auth matches Some(a) && a.auth_type@ == "custom-header"@ && a.token is None && opt_view(
            a.header_name,
        ) == filled(inputs.header_name) && opt_view(a.header_value) == filled(inputs.header_value)
            && a.username is None && a.password is None)
    } else if ty == "basic"@ {
        (auth matches Some(a) && a.auth_type@ == "basic"@ && a.token is None && a.header_name is None
            && a.header_value is None && opt_view(a.username) == filled(inputs.username) && opt_view(
            a.password,
        ) == trimmed(inputs.password))
    } else {
        auth is None
    }
}

/// The status after a host was added, `n` hosts in all.
pub open spec fn host_added_status(n: nat) -> Seq<char> {
    "✅ Host added ("@ + decimal(n) + " all)"@
}

/// The tree state other than the host list, form and status is the same in `a` and `b`.
pub open spec fn same_tree(a: ExplorerState, b: ExplorerState) -> bool {
    &&& a.expanded_hosts@ == b.expanded_hosts@
    &&& a.schemas@ == b.schemas@
    &&& a.loading_hosts@ == b.loading_hosts@
    &&& a.tables@ == b.tables@
    &&& a.expanded_schemas@ == b.expanded_schemas@
    &&& a.loading_tables@ == b.loading_tables@
}

/// The add-host form is the same in `a` and `b`.
pub open spec fn same_form(a: ExplorerState, b: ExplorerState) -> bool {
    &&& a.show_add_form == b.show_add_form
    &&& a.new_auth_type@ == b.new_auth_type@
}

/// Copies the text of an optional input, trimmed.
fn trimmed_input(s: &Option<String>) -> (r: Option<String>)
    ensures
        opt_view(r) == trimmed(*s),
{
    match s {
        Some(t) => Some(trim(t.as_str())),
        None => None,
    }
}

/// Copies the text of an optional input, trimmed, when it is not blank.
fn filled_input(s: &Option<String>) -> (r: Option<String>)
    ensures
        opt_view(r) == filled(*s),
{
    match s {
        Some(t) => {
            let v = trim(t.as_str());
            if v.as_str().is_empty() {
                None
            } else {
                Some(v)
            }
        },
        None => None,
    }
}

/// The key under which the loading of a schema's tables is recorded (`host|schema`).
pub fn loading_key(host: &str, schema: &str) -> (r: String)
    ensures
        r@ == loading_key_spec(host@, schema@),
{
    let mut r = to_owned_string(host);
    push_str(&mut r, "|");
    push_str(&mut r, schema);
    r
}

/// The text of a DDL tab once its load has finished.
pub open spec fn ddl_result_spec(result: Result<String, String>) -> Seq<char> {
    match result {
        Ok(d) => d@,
        Err(e) => "❌ DDL generation ERROR:\n\n"@ + e@,
    }
}

pub fn ddl_result_text(result: Result<String, String>) -> (r: String)
    ensures
        r@ == ddl_result_spec(result),
{
    match result {
        Ok(d) => d,
        Err(e) => {
            let mut r = to_owned_string("❌ DDL generation ERROR:\n\n");
            push_str(&mut r, e.as_str());
            r
        },
    }
}

/// A host name with every character that is not alphanumeric replaced by `_`.
pub open spec fn sanitize_spec(s: Seq<char>) -> Seq<char>
    decreases s.len(),
{
    if s.len() == 0 {
        seq![]
    } else {
        sanitize_spec(s.drop_last()).push(
            if char_is_alphanumeric(s.last()) {
                s.last()
            } else {
                '_'
            },
        )
    }
}

/// The element id of a table in the tree: `table-{host}-{schema}-{table}`, the
/// host's characters that are not alphanumeric replaced by `_`.
pub open spec fn table_element_id_spec(host: Seq<char>, schema: Seq<char>, table: Seq<char>) -> Seq<
    char,
> {
    "table-"@ + sanitize_spec(host) + "-"@ + schema + "-"@ + table
}

pub fn table_element_id(host: &str, schema: &str, table: &str) -> (r: String)
    ensures
        r@ == table_element_id_spec(host@, schema@, table@),
{
    let mut r = to_owned_string("table-");
    let ghost start = r@;
    for c in it: host.chars()
        invariant
            it.seq() == host@,
            r@ == start + sanitize_spec(host@.take(it.index() as int)),
    {
        assert(host@.take(it.index() + 1).drop_last() =~= host@.take(it.index() as int));
        if is_alphanumeric(c) {
            push_char(&mut r, c);
        } else {
            push_char(&mut r, '_');
        }
        assert(r@ =~= start + sanitize_spec(host@.take(it.index() + 1)));
    }
    assert(host@.take(host@.len() as int) =~= host@);
    push_str(&mut r, "-");
    push_str(&mut r, schema);
    push_str(&mut r, "-");
    push_str(&mut r, table);
    r
}

impl ExplorerState {
    /// The panel's state over the saved hosts; with none saved, the list holds
    /// `https://example.com` without authentication.
    pub fn new(hosts: Vec<HostConfig>) -> (r: ExplorerState)
        ensures
            hosts@.len() > 0 ==> r.hosts@ == hosts@,
            hosts@.len() == 0 ==> (r.hosts@.len() == 1 && r.hosts@[0].name@ == "https://example.com"@
                && (r.hosts@[0].auth matches Some(a) && is_no_auth(a))),
            r.status@ == "Ready to work"@,
            !r.show_add_form,
            r.new_auth_type@ == "none"@,
            r.expanded_hosts@ == Set::<Seq<char>>::empty(),
            r.schemas@ == Map::<Seq<char>, Seq<String>>::empty(),
            r.loading_hosts@ == Set::<Seq<char>>::empty(),
            r.tables@ == Map::<(Seq<char>, Seq<char>), Seq<String>>::empty(),
            r.expanded_schemas@ == Set::<(Seq<char>, Seq<char>)>::empty(),
            r.loading_tables@ == Set::<Seq<char>>::empty(),
    {
        let mut hosts = hosts;
        if hosts.len() == 0 {
            hosts.push(HostConfig::new(to_owned_string("https://example.com")));
        }
        ExplorerState {
            hosts,
            status: to_owned_string("Ready to work"),
            show_add_form: false,
            new_auth_type: to_owned_string("none"),
            expanded_hosts: KeySet::new(),
            schemas: KeyedLists::new(),
            loading_hosts: KeySet::new(),
            tables: KeyedLists::new(),
            expanded_schemas: KeySet::new(),
            loading_tables: KeySet::new(),
        }
    }

    /// A copy of the first saved host named `name`.
    pub fn find_host(&self, name: &str) -> (r: Option<HostConfig>)
        ensures
            r == find_host_spec(self.hosts@, name@),
            r matches Some(h) ==> h.name@ == name@,
            r is None <==> forall|i: int| 0 <= i < self.hosts@.len() ==> self.hosts@[i].name@ != name@,
    {
        proof {
            lemma_find_host_exact(self.hosts@, name@);
        }
        let mut i: usize = 0;
        assert(self.hosts@.skip(0) =~= self.hosts@);
        while i < self.hosts.len()
            invariant
                i <= self.hosts.len(),
                find_host_spec(self.hosts@, name@) == find_host_spec(self.hosts@.skip(i as int), name@),
            decreases self.hosts.len() - i,
        {
            assert(self.hosts@.skip(i as int)[0] == self.hosts@[i as int]);
            if str_eq(self.hosts[i].name.as_str(), name) {
                return Some(self.hosts[i].copy());
            }
            assert(self.hosts@.skip(i as int).drop_first() =~= self.hosts@.skip(i + 1));
            i = i + 1;
        }
        None
    }

    /// Opens or closes the add-host form; returns whether it is now open.
    pub fn toggle_add_form(&mut self) -> (shown: bool)
        ensures
            final(self).show_add_form == !old(self).show_add_form,
            shown == final(self).show_add_form,
            final(self).new_auth_type == old(self).new_auth_type,
            final(self).hosts == old(self).hosts,
            final(self).status == old(self).status,
            same_tree(*final(self), *old(self)),
    {
        self.show_add_form = !self.show_add_form;
        self.show_add_form
    }

    /// Closes the add-host form and resets its authentication type to none.
    pub fn close_add_form(&mut self)
        ensures
            !final(self).show_add_form,
            final(self).new_auth_type@ == "none"@,
            final(self).hosts == old(self).hosts,
            final(self).status == old(self).status,
            same_tree(*final(self), *old(self)),
    {
        self.show_add_form = false;
        self.new_auth_type = to_owned_string("none");
    }

    /// Chooses the authentication type of the host being added.
    pub fn set_auth_type(&mut self, ty: &str)
        ensures
            final(self).new_auth_type@ == ty@,
            final(self).show_add_form == old(self).show_add_form,
            final(self).hosts == old(self).hosts,
            final(self).status == old(self).status,
            same_tree(*final(self), *old(self)),
    {
        self.new_auth_type = to_owned_string(ty);
    }

    /// Saves the add-host form. With a blank URL nothing is added and the status
    /// asks for one; otherwise the host is appended with the authentication that
    /// the chosen type reads from the form, and the form closes. Returns whether
    /// a host was added (the host list must then be stored).
    pub fn add_host(&mut self, inputs: &NewHostInputs) -> (added: bool)
        ensures
            added == (url_input(*inputs).len() > 0),
            !added ==> final(self).hosts == old(self).hosts && final(self).status@
                == "❌ Enter host URL"@ && same_form(*final(self), *old(self)),
            added ==> {
                &&& final(self).hosts@.len() == old(self).hosts@.len() + 1
                &&& final(self).hosts@.drop_last() == old(self).hosts@
                &&& final(self).hosts@.last().name@ == url_input(*inputs)
                &&& is_new_auth(
                    final(self).hosts@.last().auth,
                    old(self).new_auth_type@,
                    *inputs,
                )
                &&& final(self).status@ == host_added_status(final(self).hosts@.len())
                &&& !final(self).show_add_form
                &&& final(self).new_auth_type@ == "none"@
            },
            same_tree(*final(self), *old(self)),
    {
        let host_url = match &inputs.host_url {
            Some(t) => trim(t.as_str()),
            None => String::new(),
        };
        if host_url.as_str().is_empty() {
            self.status = to_owned_string("❌ Enter host URL");
            return false;
        }
        let ty = self.new_auth_type.as_str();
        let auth = if str_eq(ty, "bearer") {
            Some(
                AuthConfig {
                    auth_type: to_owned_string("bearer"),
                    token: filled_input(&inputs.bearer_token),
                    header_name: None,
                    header_value: None,
                    username: None,
                    password: None,
                },
            )
        } else if str_eq(ty, "custom-header") {
            Some(
                AuthConfig {
                    auth_type: to_owned_string("custom-header"),
                    token: None,
                    header_name: filled_input(&inputs.header_name),
                    header_value: filled_input(&inputs.header_value),
                    username: None,
                    password: None,
                },
            )
        } else if str_eq(ty, "basic") {
            Some(
                AuthConfig {
                    auth_type: to_owned_string("basic"),
                    token: None,
                    header_name: None,
                    header_value: None,
                    username: filled_input(&inputs.username),
                    password: trimmed_input(&inputs.password),
                },
            )
        } else {
            None
        };
        let new_host = HostConfig { name: host_url, auth };
        self.hosts.push(new_host);
        let mut status = to_owned_string("✅ Host added (");
        push_decimal(&mut status, self.hosts.len());
        push_str(&mut status, " all)");
        self.status = status;
        self.close_add_form();
        assert(self.hosts@.drop_last() =~= old(self).hosts@);
        true
    }

    /// Whether the schemas of host `name` are shown.
    pub fn is_host_expanded(&self, name: &String) -> (r: bool)
        ensures
            r == self.expanded_hosts@.contains(name@),
    {
        self.expanded_hosts.contains(name)
    }

    /// The schemas loaded for host `name`; none when they have not been loaded.
    pub fn schemas_of(&self, name: &String) -> (r: Vec<String>)
        ensures
            self.schemas@.contains_key(name@) ==> r@ == self.schemas@[name@],
            !self.schemas@.contains_key(name@) ==> r@.len() == 0,
    {
        match self.schemas.get(name) {
            Some(v) => v,
            None => Vec::new(),
        }
    }

    /// Whether the tables of `schema` on host `host` are shown.
    pub fn is_schema_expanded(&self, host: &String, schema: &String) -> (r: bool)
        ensures
            r == self.expanded_schemas@.contains((host@, schema@)),
    {
        self.expanded_schemas.contains(&(host.clone(), schema.clone()))
    }

    /// The tables loaded for `schema` on host `host`; none when they have not been loaded.
    pub fn tables_of(&self, host: &String, schema: &String) -> (r: Vec<String>)
        ensures
            self.tables@.contains_key((host@, schema@)) ==> r@ == self.tables@[(host@, schema@)],
            !self.tables@.contains_key((host@, schema@)) ==> r@.len() == 0,
    {
        match self.tables.get(&(host.clone(), schema.clone())) {
            Some(v) => v,
            None => Vec::new(),
        }
    }

    /// Whether the tables of `schema` on host `host` are being loaded.
    pub fn is_loading_tables(&self, host: &String, schema: &String) -> (r: bool)
        ensures
            r == self.loading_tables@.contains(loading_key_spec(host@, schema@)),
    {
        self.loading_tables.contains(&loading_key(host.as_str(), schema.as_str()))
    }

    /// Starts loading the schemas of host `name`: marks it as loading and
    /// returns the host to ask; when no saved host has that name, nothing loads.
    pub fn begin_fetch_schemas(&mut self, name: &String) -> (r: Option<HostConfig>)
        ensures
            r == find_host_spec(old(self).hosts@, name@),
            r is Some ==> final(self).loading_hosts@ == old(self).loading_hosts@.insert(name@),
            r is None ==> final(self).loading_hosts@ == old(self).loading_hosts@.remove(name@),
            final(self).hosts == old(self).hosts,
            final(self).status == old(self).status,
            same_form(*final(self), *old(self)),
            final(self).expanded_hosts@ == old(self).expanded_hosts@,
            final(self).schemas@ == old(self).schemas@,
            final(self).tables@ == old(self).tables@,
            final(self).expanded_schemas@ == old(self).expanded_schemas@,
            final(self).loading_tables@ == old(self).loading_tables@,
    {
        self.loading_hosts.insert(name.clone());
        let found = self.find_host(name.as_str());
        if found.is_none() {
            self.loading_hosts.remove(name);
            assert(self.loading_hosts@ =~= old(self).loading_hosts@.remove(name@));
        }
        found
    }

    /// Expands or collapses host `name`. Expanding a host whose schemas are
    /// neither loaded nor loading starts their load: the host to ask is returned.
    pub fn toggle_host(&mut self, name: &String) -> (r: Option<HostConfig>)
        ensures
            final(self).expanded_hosts@ == toggle_set(old(self).expanded_hosts@, name@),
            ({
                let starts = !old(self).expanded_hosts@.contains(name@) && !old(
                    self,
                ).schemas@.contains_key(name@) && !old(self).loading_hosts@.contains(name@);
                &&& starts ==> r == find_host_spec(old(self).hosts@, name@)
                &&& !starts ==> r is None
                &&& r is Some ==> final(self).loading_hosts@ == old(self).loading_hosts@.insert(
                    name@,
                )
                &&& r is None ==> final(self).loading_hosts@ == old(self).loading_hosts@
            }),
            final(self).hosts == old(self).hosts,
            final(self).status == old(self).status,
            same_form(*final(self), *old(self)),
            final(self).schemas@ == old(self).schemas@,
            final(self).tables@ == old(self).tables@,
            final(self).expanded_schemas@ == old(self).expanded_schemas@,
            final(self).loading_tables@ == old(self).loading_tables@,
    {
        let was = self.expanded_hosts.contains(name);
        if was {
            self.expanded_hosts.remove(name);
            return None;
        }
        self.expanded_hosts.insert(name.clone());
        if !self.schemas.contains_key(name) && !self.loading_hosts.contains(name) {
            let r = self.begin_fetch_schemas(name);
            if r.is_none() {
                assert(self.loading_hosts@ =~= old(self).loading_hosts@);
            }
            r
        } else {
            None
        }
    }

    /// Records the end of the load of host `name`'s schemas: the list on
    /// success, the error in the status otherwise; the host is no longer loading.
    pub fn finish_fetch_schemas(&mut self, name: &String, result: Result<Vec<String>, String>)
        ensures
            final(self).loading_hosts@ == old(self).loading_hosts@.remove(name@),
            match result {
                Ok(v) => schemas_loaded(*old(self), *final(self), name@, v@) && final(self).status
                    == old(self).status,
                Err(e) => final(self).schemas@ == old(self).schemas@ && final(self).status@ == "❌ "@
                    + e@,
            },
            final(self).hosts == old(self).hosts,
            same_form(*final(self), *old(self)),
            final(self).expanded_hosts@ == old(self).expanded_hosts@,
            final(self).tables@ == old(self).tables@,
            final(self).expanded_schemas@ == old(self).expanded_schemas@,
            final(self).loading_tables@ == old(self).loading_tables@,
    {
        match result {
            Ok(v) => {
                self.schemas.insert(name.clone(), v);
            },
            Err(e) => {
                let mut s = to_owned_string("❌ ");
                push_str(&mut s, e.as_str());
                self.status = s;
            },
        }
        self.loading_hosts.remove(name);
    }

    /// Starts loading the tables of `schema` on host `host`: marks the
    /// `host|schema` key as loading and returns the host to ask; when no saved
    /// host has that name, nothing loads.
    pub fn begin_fetch_tables(&mut self, host: &String, schema: &String) -> (r: Option<HostConfig>)
        ensures
            r == find_host_spec(old(self).hosts@, host@),
            r is Some ==> final(self).loading_tables@ == old(self).loading_tables@.insert(
                loading_key_spec(host@, schema@),
            ),
            r is None ==> final(self).loading_tables@ == old(self).loading_tables@.remove(
                loading_key_spec(host@, schema@),
            ),
            final(self).hosts == old(self).hosts,
            final(self).status == old(self).status,
            same_form(*final(self), *old(self)),
            final(self).expanded_hosts@ == old(self).expanded_hosts@,
            final(self).schemas@ == old(self).schemas@,
            final(self).loading_hosts@ == old(self).loading_hosts@,
            final(self).tables@ == old(self).tables@,
            final(self).expanded_schemas@ == old(self).expanded_schemas@,
    {
        let key = loading_key(host.as_str(), schema.as_str());
        self.loading_tables.insert(key.clone());
        let found = self.find_host(host.as_str());
        if found.is_none() {
            self.loading_tables.remove(&key);
            assert(self.loading_tables@ =~= old(self).loading_tables@.remove(key@));
        }
        found
    }

    /// Expands or collapses `schema` on host `host`. Expanding a schema whose
    /// tables are neither loaded nor loading starts their load: the host to ask is returned.
    pub fn toggle_schema(&mut self, host: &String, schema: &String) -> (r: Option<HostConfig>)
        ensures
            final(self).expanded_schemas@ == toggle_set(
                old(self).expanded_schemas@,
                (host@, schema@),
            ),
            ({
                let key = loading_key_spec(host@, schema@);
                let starts = !old(self).expanded_schemas@.contains((host@, schema@)) && !old(
                    self,
                ).loading_tables@.contains(key) && !old(self).tables@.contains_key(
                    (host@, schema@),
                );
                &&& starts ==> r == find_host_spec(old(self).hosts@, host@)
                &&& !starts ==> r is None
                &&& r is Some ==> final(self).loading_tables@ == old(self).loading_tables@.insert(
                    key,
                )
                &&& r is None ==> final(self).loading_tables@ == old(self).loading_tables@
            }),
            final(self).hosts == old(self).hosts,
            final(self).status == old(self).status,
            same_form(*final(self), *old(self)),
            final(self).expanded_hosts@ == old(self).expanded_hosts@,
            final(self).schemas@ == old(self).schemas@,
            final(self).loading_hosts@ == old(self).loading_hosts@,
            final(self).tables@ == old(self).tables@,
    {
        let pair = (host.clone(), schema.clone());
        if self.expanded_schemas.contains(&pair) {
            self.expanded_schemas.remove(&pair);
            return None;
        }
        self.expanded_schemas.insert(pair);
        let key = loading_key(host.as_str(), schema.as_str());
        if !self.loading_tables.contains(&key) && !self.tables.contains_key(
            &(host.clone(), schema.clone()),
        ) {
            let r = self.begin_fetch_tables(host, schema);
            if r.is_none() {
                assert(self.loading_tables@ =~= old(self).loading_tables@);
            }
            r
        } else {
            None
        }
    }

    /// Records the end of the load of `schema`'s tables on host `host`: the
    /// list on success, the error in the status otherwise; the key is no longer loading.
    pub fn finish_fetch_tables(
        &mut self,
        host: &String,
        schema: &String,
        result: Result<Vec<String>, String>,
    )
        ensures
            final(self).loading_tables@ == old(self).loading_tables@.remove(
                loading_key_spec(host@, schema@),
            ),
            match result {
                Ok(v) => tables_loaded(*old(self), *final(self), host@, schema@, v@)
                    && final(self).status == old(self).status,
                Err(e) => final(self).tables@ == old(self).tables@ && final(self).status@ == "❌ "@
                    + e@,
            },
            final(self).hosts == old(self).hosts,
            same_form(*final(self), *old(self)),
            final(self).expanded_hosts@ == old(self).expanded_hosts@,
            final(self).schemas@ == old(self).schemas@,
            final(self).loading_hosts@ == old(self).loading_hosts@,
            final(self).expanded_schemas@ == old(self).expanded_schemas@,
    {
        match result {
            Ok(v) => {
                self.tables.insert((host.clone(), schema.clone()), v);
            },
            Err(e) => {
                let mut s = to_owned_string("❌ ");
                push_str(&mut s, e.as_str());
                self.status = s;
            },
        }
        self.loading_tables.remove(&loading_key(host.as_str(), schema.as_str()));
    }

    /// Opens the data of `schema.table` on host `host` in a new tab: returns the
    /// host to ask, or `None` when the workspace is gone or no saved host has that name.
    pub fn open_table_data(
        &mut self,
        host: &String,
        schema: &String,
        table: &String,
        workspace_available: bool,
    ) -> (r: Option<HostConfig>)
        ensures
            !workspace_available ==> r is None && final(self).status@
                == "❌ Workspace unavailable"@,
            workspace_available ==> r == find_host_spec(old(self).hosts@, host@),
            workspace_available && r is Some ==> final(self).status@ == "📋 Table is opened: "@
                + schema@ + "."@ + table@,
            workspace_available && r is None ==> final(self).status@ == "❌ Host "@ + host@
                + " not found"@,
            final(self).hosts == old(self).hosts,
            same_form(*final(self), *old(self)),
            same_tree(*final(self), *old(self)),
    {
        if !workspace_available {
            self.status = to_owned_string("❌ Workspace unavailable");
            return None;
        }
        let found = self.find_host(host.as_str());
        match &found {
            Some(_) => {
                let mut s = to_owned_string("📋 Table is opened: ");
                push_str(&mut s, schema.as_str());
                push_str(&mut s, ".");
                push_str(&mut s, table.as_str());
                self.status = s;
            },
            None => {
                let mut s = to_owned_string("❌ Host ");
                push_str(&mut s, host.as_str());
                push_str(&mut s, " not found");
                self.status = s;
            },
        }
        found
    }

    /// Opens the DDL of `schema.table` on host `host` in a new tab: returns the
    /// job (host, tab title, text shown while loading), or `None` when no saved
    /// host has that name.
    pub fn open_table_ddl(&mut self, host: &String, schema: &String, table: &String) -> (r: Option<
        DdlJob,
    >)
        ensures
            match find_host_spec(old(self).hosts@, host@) {
                Some(h) => (r matches Some(job) && job.host == h && job.title@ == "DDL: "@ + schema@
                    + "."@ + table@ && job.loading_text@ == "⏳ DDL generation for table...\n\nWait..."@
                    && final(self).status@ == "✅ DDL generation for "@ + schema@ + "."@ + table@
                    + " started"@),
                None => r is None && final(self).status@ == "❌ Host "@ + host@ + " not found"@,
            },
            final(self).hosts == old(self).hosts,
            same_form(*final(self), *old(self)),
            same_tree(*final(self), *old(self)),
    {
        match self.find_host(host.as_str()) {
            None => {
                let mut s = to_owned_string("❌ Host ");
                push_str(&mut s, host.as_str());
                push_str(&mut s, " not found");
                self.status = s;
                None
            },
            Some(h) => {
                let mut title = to_owned_string("DDL: ");
                push_str(&mut title, schema.as_str());
                push_str(&mut title, ".");
                push_str(&mut title, table.as_str());
                let mut s = to_owned_string("✅ DDL generation for ");
                push_str(&mut s, schema.as_str());
                push_str(&mut s, ".");
                push_str(&mut s, table.as_str());
                push_str(&mut s, " started");
                self.status = s;
                Some(
                    DdlJob {
                        host: h,
                        title,
                        loading_text: to_owned_string("⏳ DDL generation for table...\n\nWait..."),
                    },
                )
            },
        }
    }

    /// Deletes the host at `index` with everything the tree holds for its name;
    /// returns whether it did (an index past the list changes nothing).
    pub fn delete_host(&mut self, index: usize) -> (deleted: bool)
        ensures
            deleted == (index < old(self).hosts@.len()),
            !deleted ==> final(self).hosts == old(self).hosts && final(self).status
                == old(self).status && same_tree(*final(self), *old(self)),
            deleted ==> host_deleted(*old(self), *final(self), index as int) && final(self).status@
                == "🗑️ Host deleted"@,
            same_form(*final(self), *old(self)),
    {
        if index >= self.hosts.len() {
            return false;
        }
        let name = self.hosts[index].name.clone();
        self.hosts.remove(index);
        self.expanded_hosts.remove(&name);
        self.schemas.remove(&name);
        self.tables.remove_first(&name);
        self.expanded_schemas.remove_first(&name);
        self.loading_hosts.remove(&name);
        let mut prefix = name.clone();
        push_str(&mut prefix, "|");
        self.loading_tables.remove_with_prefix(prefix.as_str());
        self.status = to_owned_string("🗑️ Host deleted");
        proof {
            let nm = name@;
            let before = *old(self);
            assert(self.tables@ =~= before.tables@.restrict(
                before.tables@.dom().filter(|k: (Seq<char>, Seq<char>)| k.0 != nm),
            ));
            assert(self.expanded_schemas@ =~= before.expanded_schemas@.filter(
                |k: (Seq<char>, Seq<char>)| k.0 != nm,
            ));
            assert(self.loading_tables@ =~= before.loading_tables@.filter(
                |k: Seq<char>| !crate::keyed::is_prefix(nm + "|"@, k),
            ));
        }
        true
    }

    /// Marks the panel as refreshed.
    pub fn refresh(&mut self)
        ensures
            final(self).status@ == "🔄 Updated"@,
            final(self).hosts == old(self).hosts,
            same_form(*final(self), *old(self)),
            same_tree(*final(self), *old(self)),
    {
        self.status = to_owned_string("🔄 Updated");
    }

    /// The label of the button that opens and closes the add-host form.
    pub fn add_form_button_label(&self) -> (r: String)
        ensures
            r@ == if self.show_add_form {
                "✕ Close"@
            } else {
                "＋ Add Host"@
            },
    {
        if self.show_add_form {
            to_owned_string("✕ Close")
        } else {
            to_owned_string("＋ Add Host")
        }
    }
}

} // verus!
