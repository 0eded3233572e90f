//! User API endpoints.

use vstd::prelude::*;
use vstd::string::StringExecFns;

use crate::common::{
    Timestamp,
    form_request_body, BuilderError, Endpoint, IntoNameOrId, Method, NameOrId, Pageable,
};
use crate::params::{opt_pair, opt_value, ParamValue, ParamView, Params};
use crate::text::{ascii_chars, bytes_to_vec, decimal, decimal_string, path_escape, path_escaped};
use crate::api::common::{EnableState, SortOrder};
use crate::order::{bytes_lt, compare_bytes, lemma_bytes_lt_irreflexive, lemma_bytes_lt_transitive, KeyOrder};

verus! {

/// Query information about the API calling user.
#[derive(Debug)]
pub struct CurrentUser {
}

/// Builder for [`CurrentUser`].
#[derive(Debug)]
pub struct CurrentUserBuilder {
}

impl CurrentUser {
    /// Create a builder for the endpoint.
    pub fn builder() -> (r: CurrentUserBuilder) {
        CurrentUserBuilder {  }
    }
}

impl CurrentUserBuilder {

    /// Build the endpoint.
    pub fn build(self) -> (r: Result<CurrentUser, BuilderError>)
        ensures
            r is Ok,
    {
        Ok(CurrentUser {  })
    }
}

impl Endpoint for CurrentUser {
    open spec fn spec_method(&self) -> Method {
        Method::Get
    }

    open spec fn spec_endpoint(&self) -> Seq<char> {
        "user"@
    }

    open spec fn spec_parameters(&self) -> Seq<ParamView> {
        Seq::<ParamView>::empty()
    }

    open spec fn spec_body(&self) -> Option<Seq<ParamView>> {
        None
    }

    fn method(&self) -> (r: Method) {
        Method::Get
    }

    fn endpoint(&self) -> (r: String) {
        let mut r = "user".to_owned();
        r
    }

    fn parameters(&self) -> (r: Params) {
        let mut p = Params::new();
        assert(p@ =~= Seq::<ParamView>::empty());
        p
    }

    fn body(&self) -> (r: Option<(&'static str, Vec<u8>)>) {
        None
    }
}

/// Query a user by ID.
#[derive(Debug)]
pub struct User {
    /// The ID of the user.
    pub user: u64,
}

/// Builder for [`User`].
#[derive(Debug)]
pub struct UserBuilder {
    pub user: Option<u64>,
}

impl User {
    /// Create a builder for the endpoint.
    pub fn builder() -> (r: UserBuilder)
        ensures
            r.user is None,
    {
        UserBuilder { user: None }
    }
}

impl UserBuilder {
    /// The ID of the user.
    pub fn user(self, user: u64) -> (r: Self)
        ensures
            r.user == Some(user),
    {
        let mut r = self;
        r.user = Some(user);
        r
    }

    /// Build the endpoint (`user` must be set).
    pub fn build(self) -> (r: Result<User, BuilderError>)
        ensures
            (self.user is None) ==> (r matches Err(e) && e.missing("user"@)),
            (self.user is Some) ==> (r matches Ok(v) && v.user == self.user->0),
    {
        match self.user {
            None => Err(BuilderError::UninitializedField("user")),
            Some(user) => {
                Ok(User { user })
            },
        }
    }
}

impl Endpoint for User {
    open spec fn spec_method(&self) -> Method {
        Method::Get
    }

    open spec fn spec_endpoint(&self) -> Seq<char> {
        "users/"@ + ascii_chars(decimal(self.user as nat))
    }

    open spec fn spec_parameters(&self) -> Seq<ParamView> {
        Seq::<ParamView>::empty()
    }

    open spec fn spec_body(&self) -> Option<Seq<ParamView>> {
        None
    }

    fn method(&self) -> (r: Method) {
        Method::Get
    }

    fn endpoint(&self) -> (r: String) {
        let mut r = "users/".to_owned();
        r.append(decimal_string(self.user).as_str());
        r
    }

    fn parameters(&self) -> (r: Params) {
        let mut p = Params::new();
        assert(p@ =~= Seq::<ParamView>::empty());
        p
    }

    fn body(&self) -> (r: Option<(&'static str, Vec<u8>)>) {
        None
    }
}

/// Keys user results may be ordered by.
#[derive(Debug, Clone, Copy, PartialEq, Eq, Structural)]
pub enum UserOrderBy {
    /// Order by the user ID.
    Id,
    /// Order by the user display name.
    Name,
    /// Order by the username.
    Username,
    /// Order by the creation date of the user.
    CreatedAt,
    /// Order by the last updated date of the user.
    UpdatedAt,
}

impl UserOrderBy {
    /// The name of the variant.
    pub open spec fn spec_as_str(self) -> Seq<char> {
        match self {
            UserOrderBy::Id => "id"@,
            UserOrderBy::Name => "name"@,
            UserOrderBy::Username => "username"@,
            UserOrderBy::CreatedAt => "created_at"@,
            UserOrderBy::UpdatedAt => "updated_at"@,
        }
    }

    /// The name of the variant.
    pub fn as_str(self) -> (r: &'static str)
        ensures
            r@ == self.spec_as_str(),
    {
        match self {
            UserOrderBy::Id => "id",
            UserOrderBy::Name => "name",
            UserOrderBy::Username => "username",
            UserOrderBy::CreatedAt => "created_at",
            UserOrderBy::UpdatedAt => "updated_at",
        }
    }
}

impl ParamValue for UserOrderBy {
    open spec fn spec_value(&self) -> Seq<char> {
        self.spec_as_str()
    }

    fn as_value(&self) -> (r: String) {
        self.as_str().to_owned()
    }
}

impl Default for UserOrderBy {
    fn default() -> (r: Self)
        ensures
            r == UserOrderBy::Id,
    {
        UserOrderBy::Id
    }
}

/// An external identity of a user.
#[derive(Debug)]
pub struct ExternalProvider {
    /// The UID of the user on the service.
    pub uid: String,
    /// The name of the service.
    pub name: String,
}

/// Builder for [`ExternalProvider`].
#[derive(Debug)]
pub struct ExternalProviderBuilder {
    pub uid: Option<String>,
    pub name: Option<String>,
}

impl ExternalProvider {
    /// Create a builder for the endpoint.
    pub fn builder() -> (r: ExternalProviderBuilder)
        ensures
            r.uid is None,
            r.name is None,
    {
        ExternalProviderBuilder { uid: None, name: None }
    }
}

impl ExternalProviderBuilder {
    /// The UID of the user on the service.
    pub fn uid(self, uid: &str) -> (r: Self)
        ensures
            r.uid matches Some(v) && v@ == uid@,
            r.name == self.name,
    {
        let mut r = self;
        r.uid = Some(uid.to_owned());
        r
    }

    /// The name of the service.
    pub fn name(self, name: &str) -> (r: Self)
        ensures
            r.name matches Some(v) && v@ == name@,
            r.uid == self.uid,
    {
        let mut r = self;
        r.name = Some(name.to_owned());
        r
    }

    /// Set the UID from a number.
    pub fn id(self, id: u64) -> (r: Self)
        ensures
            r.uid matches Some(v) && v@ == ascii_chars(decimal(id as nat)),
            r.name == self.name,
    {
        let mut r = self;
        r.uid = Some(decimal_string(id));
        r
    }

    /// Build the endpoint (`uid`, `name` must be set).
    pub fn build(self) -> (r: Result<ExternalProvider, BuilderError>)
        ensures
            (self.uid is None) ==> (r matches Err(e) && e.missing("uid"@)),
            (self.uid is Some && self.name is None) ==> (r matches Err(e) && e.missing("name"@)),
            (self.uid is Some && self.name is Some) ==> (r matches Ok(v) && v.uid == self.uid->0 && v.name == self.name->0),
    {
        match self.uid {
            None => Err(BuilderError::UninitializedField("uid")),
            Some(uid) => {
                match self.name {
                    None => Err(BuilderError::UninitializedField("name")),
                    Some(name) => {
                        Ok(ExternalProvider { uid, name })
                    },
                }
            },
        }
    }
}

/// Whether the keys appear in strictly increasing byte order, which also
/// means that no key appears twice.
pub open spec fn keys_sorted(s: Seq<ParamView>) -> bool {
    forall|i: int, j: int|
        0 <= i < j < s.len() ==> bytes_lt(
            vstd::utf8::encode_utf8(#[trigger] s[i].0),
            vstd::utf8::encode_utf8(#[trigger] s[j].0),
        )
}

/// Whether some entry has the key `key`.
pub open spec fn has_key(s: Seq<ParamView>, key: Seq<char>) -> bool {
    exists|i: int| 0 <= i < s.len() && #[trigger] s[i].0 == key
}

/// An index of an entry with the key `key`, when there is one.
pub open spec fn key_index(s: Seq<ParamView>, key: Seq<char>) -> int {
    choose|i: int| 0 <= i < s.len() && #[trigger] s[i].0 == key
}

/// The value stored under `key`, if any.
pub open spec fn attribute_lookup(s: Seq<ParamView>, key: Seq<char>) -> Option<Seq<char>> {
    if has_key(s, key) {
        Some(s[key_index(s, key)].1)
    } else {
        None
    }
}

/// The value of the last pair for `key`, if any.
pub open spec fn last_value_for(pairs: Seq<ParamView>, key: Seq<char>) -> Option<Seq<char>>
    decreases pairs.len(),
{
    if pairs.len() == 0 {
        None
    } else if pairs.last().0 == key {
        Some(pairs.last().1)
    } else {
        last_value_for(pairs.drop_last(), key)
    }
}

/// The characters of string pairs.
pub open spec fn str_pairs(pairs: Seq<(&str, &str)>) -> Seq<ParamView> {
    pairs.map_values(|p: (&str, &str)| (p.0@, p.1@))
}

/// The query parameters for custom attributes: `custom_attributes[key]=value`
/// for each attribute, in key order.
pub open spec fn attribute_params(s: Seq<ParamView>) -> Seq<ParamView> {
    s.map_values(|p: ParamView| ("custom_attributes["@ + p.0 + "]"@, p.1))
}

proof fn lemma_keys_distinct(s: Seq<ParamView>, i: int, j: int)
    requires
        keys_sorted(s),
        0 <= i < s.len(),
        0 <= j < s.len(),
        s[i].0 == s[j].0,
    ensures
        i == j,
{
    if i < j {
        lemma_bytes_lt_irreflexive(vstd::utf8::encode_utf8(s[i].0));
    } else if j < i {
        lemma_bytes_lt_irreflexive(vstd::utf8::encode_utf8(s[i].0));
    }
}

proof fn lemma_lookup_at(s: Seq<ParamView>, i: int)
    requires
        keys_sorted(s),
        0 <= i < s.len(),
    ensures
        attribute_lookup(s, s[i].0) == Some(s[i].1),
{
    let k = s[i].0;
    assert(exists|c: int| 0 <= c < s.len() && #[trigger] s[c].0 == k) by {
        assert(s[i].0 == k);
    }
    let c = key_index(s, k);
    lemma_keys_distinct(s, c, i);
}

proof fn lemma_replace(s: Seq<ParamView>, i: int, v: Seq<char>)
    requires
        keys_sorted(s),
        0 <= i < s.len(),
    ensures
        keys_sorted(s.update(i, (s[i].0, v))),
        forall|k: Seq<char>|
            #[trigger] attribute_lookup(s.update(i, (s[i].0, v)), k) == if k == s[i].0 {
                Some(v)
            } else {
                attribute_lookup(s, k)
            },
{
    let t = s.update(i, (s[i].0, v));
    assert forall|a: int, b: int| 0 <= a < b < t.len() implies bytes_lt(
        vstd::utf8::encode_utf8(#[trigger] t[a].0),
        vstd::utf8::encode_utf8(#[trigger] t[b].0),
    ) by {
        assert(t[a].0 == s[a].0 && t[b].0 == s[b].0);
    }
    assert forall|k: Seq<char>|
        #[trigger] attribute_lookup(t, k) == if k == s[i].0 {
            Some(v)
        } else {
            attribute_lookup(s, k)
        } by {
        if k == s[i].0 {
            lemma_lookup_at(t, i);
        } else if has_key(t, k) {
            let j = key_index(t, k);
            assert(j != i);
            assert(t[j] == s[j]);
            lemma_lookup_at(t, j);
            lemma_lookup_at(s, j);
        } else {
            assert forall|j: int| 0 <= j < s.len() implies #[trigger] s[j].0 != k by {
                if j != i {
                    assert(t[j] == s[j]);
                }
            }
        }
    }
}

proof fn lemma_insert(s: Seq<ParamView>, i: int, k0: Seq<char>, v: Seq<char>)
    requires
        keys_sorted(s),
        0 <= i <= s.len(),
        forall|j: int| 0 <= j < i ==> bytes_lt(vstd::utf8::encode_utf8(#[trigger] s[j].0), vstd::utf8::encode_utf8(k0)),
        i < s.len() ==> bytes_lt(vstd::utf8::encode_utf8(k0), vstd::utf8::encode_utf8(s[i].0)),
    ensures
        keys_sorted(s.insert(i, (k0, v))),
        forall|k: Seq<char>|
            #[trigger] attribute_lookup(s.insert(i, (k0, v)), k) == if k == k0 {
                Some(v)
            } else {
                attribute_lookup(s, k)
            },
{
    let t = s.insert(i, (k0, v));
    let kb = vstd::utf8::encode_utf8(k0);
    assert forall|j: int| i <= j < s.len() implies bytes_lt(kb, vstd::utf8::encode_utf8(#[trigger] s[j].0)) by {
        if j > i {
            lemma_bytes_lt_transitive(kb, vstd::utf8::encode_utf8(s[i].0), vstd::utf8::encode_utf8(s[j].0));
        }
    }
    assert forall|a: int, b: int| 0 <= a < b < t.len() implies bytes_lt(
        vstd::utf8::encode_utf8(#[trigger] t[a].0),
        vstd::utf8::encode_utf8(#[trigger] t[b].0),
    ) by {
        if b < i {
            assert(t[a] == s[a] && t[b] == s[b]);
        } else if b == i {
            assert(t[a] == s[a]);
        } else if a < i {
            assert(t[a] == s[a] && t[b] == s[b - 1]);
            lemma_bytes_lt_transitive(vstd::utf8::encode_utf8(s[a].0), kb, vstd::utf8::encode_utf8(s[b - 1].0));
        } else if a == i {
            assert(t[b] == s[b - 1]);
        } else {
            assert(t[a] == s[a - 1] && t[b] == s[b - 1]);
        }
    }
    assert forall|k: Seq<char>|
        #[trigger] attribute_lookup(t, k) == if k == k0 {
            Some(v)
        } else {
            attribute_lookup(s, k)
        } by {
        if k == k0 {
            assert(t[i].0 == k0);
            lemma_lookup_at(t, i);
        } else if has_key(t, k) {
            let j = key_index(t, k);
            assert(j != i);
            lemma_lookup_at(t, j);
            if j < i {
                assert(t[j] == s[j]);
                lemma_lookup_at(s, j);
            } else {
                assert(t[j] == s[j - 1]);
                lemma_lookup_at(s, j - 1);
            }
        } else {
            assert forall|j: int| 0 <= j < s.len() implies #[trigger] s[j].0 != k by {
                if j < i {
                    assert(t[j] == s[j]);
                } else {
                    assert(t[j + 1] == s[j]);
                }
            }
        }
    }
}

/// Whether two user query builders agree on everything but their custom
/// attributes.
pub open spec fn same_other_fields(a: UsersBuilder, b: UsersBuilder) -> bool {
    &&& a.search == b.search
    &&& a.username == b.username
    &&& a.active == b.active
    &&& a.blocked == b.blocked
    &&& a.external_provider == b.external_provider
    &&& a.external == b.external
    &&& a.created_before == b.created_before
    &&& a.created_after == b.created_after
    &&& a.with_custom_attributes == b.with_custom_attributes
    &&& a.order_by == b.order_by
    &&& a.sort == b.sort
    &&& a.two_factor == b.two_factor
    &&& a.without_projects == b.without_projects
    &&& a.exclude_internal == b.exclude_internal
    &&& a.admins == b.admins
}

/// Whether `after` is `before` with the custom attribute `key` set to
/// `value`.
pub open spec fn is_custom_attribute_result(before: UsersBuilder, key: Seq<char>, value: Seq<char>, after: UsersBuilder) -> bool {
    &&& keys_sorted(after.custom_attributes@)
    &&& forall|k: Seq<char>|
        #[trigger] attribute_lookup(after.custom_attributes@, k) == if k == key {
            Some(value)
        } else {
            attribute_lookup(before.custom_attributes@, k)
        }
    &&& same_other_fields(before, after)
}

/// Whether `after` is `before` with the custom attributes `pairs` set, a
/// later value for a key replacing an earlier one.
pub open spec fn is_custom_attributes_result(before: UsersBuilder, pairs: Seq<ParamView>, after: UsersBuilder) -> bool {
    &&& keys_sorted(after.custom_attributes@)
    &&& forall|k: Seq<char>|
        #[trigger] attribute_lookup(after.custom_attributes@, k) == match last_value_for(pairs, k) {
            Some(v) => Some(v),
            None => attribute_lookup(before.custom_attributes@, k),
        }
    &&& same_other_fields(before, after)
}

/// Without its last entry, a sorted list loses exactly the last key.
proof fn lemma_lookup_drop_last(s: Seq<ParamView>)
    requires
        keys_sorted(s),
        s.len() > 0,
    ensures
        keys_sorted(s.drop_last()),
        forall|k: Seq<char>|
            #[trigger] attribute_lookup(s.drop_last(), k) == if k == s.last().0 {
                None
            } else {
                attribute_lookup(s, k)
            },
{
    let t = s.drop_last();
    assert forall|a: int, b: int| 0 <= a < b < t.len() implies bytes_lt(
        vstd::utf8::encode_utf8(#[trigger] t[a].0),
        vstd::utf8::encode_utf8(#[trigger] t[b].0),
    ) by {
        assert(t[a] == s[a] && t[b] == s[b]);
    }
    assert forall|k: Seq<char>|
        #[trigger] attribute_lookup(t, k) == if k == s.last().0 {
            None
        } else {
            attribute_lookup(s, k)
        } by {
        if has_key(t, k) {
            let c = key_index(t, k);
            assert(t[c] == s[c]);
            lemma_lookup_at(t, c);
            lemma_lookup_at(s, c);
            if k == s.last().0 {
                lemma_keys_distinct(s, c, s.len() - 1);
            }
        } else {
            if k != s.last().0 && has_key(s, k) {
                let c = key_index(s, k);
                assert(c != s.len() - 1);
                assert(t[c].0 == k);
            }
        }
    }
}

/// Two sorted lists that give the same value for every key are equal.
proof fn lemma_sorted_lookup_unique(a: Seq<ParamView>, b: Seq<ParamView>)
    requires
        keys_sorted(a),
        keys_sorted(b),
        forall|k: Seq<char>| #[trigger] attribute_lookup(a, k) == attribute_lookup(b, k),
    ensures
        a == b,
    decreases a.len(),
{
    if a.len() == 0 {
        if b.len() > 0 {
            lemma_lookup_at(b, 0);
            assert(attribute_lookup(a, b[0].0) is None);
        }
        assert(a =~= b);
    } else if b.len() == 0 {
        lemma_lookup_at(a, 0);
        assert(attribute_lookup(b, a[0].0) is None);
    } else {
        let ka = a.last().0;
        let kb = b.last().0;
        lemma_lookup_at(a, a.len() - 1);
        lemma_lookup_at(b, b.len() - 1);
        assert(attribute_lookup(b, ka) == attribute_lookup(a, ka));
        assert(attribute_lookup(a, kb) == attribute_lookup(b, kb));
        if ka != kb {
            let j = key_index(b, ka);
            let i = key_index(a, kb);
            assert(b[j].0 == ka && a[i].0 == kb);
            assert(j < b.len() - 1);
            assert(i < a.len() - 1);
            assert(bytes_lt(vstd::utf8::encode_utf8(b[j].0), vstd::utf8::encode_utf8(b[b.len() - 1].0)));
            assert(bytes_lt(vstd::utf8::encode_utf8(a[i].0), vstd::utf8::encode_utf8(a[a.len() - 1].0)));
            lemma_bytes_lt_transitive(
                vstd::utf8::encode_utf8(ka),
                vstd::utf8::encode_utf8(kb),
                vstd::utf8::encode_utf8(ka),
            );
            lemma_bytes_lt_irreflexive(vstd::utf8::encode_utf8(ka));
        }
        assert(a.last() == b.last());
        lemma_lookup_drop_last(a);
        lemma_lookup_drop_last(b);
        assert forall|k: Seq<char>|
            #[trigger] attribute_lookup(a.drop_last(), k) == attribute_lookup(b.drop_last(), k) by {
            assert(attribute_lookup(a, k) == attribute_lookup(b, k));
        }
        lemma_sorted_lookup_unique(a.drop_last(), b.drop_last());
        assert(a =~= a.drop_last().push(a.last()));
        assert(b =~= b.drop_last().push(b.last()));
    }
}

/// After the first `n` of a run of single additions, each key holds the
/// last value the first `n` pairs gave it, or else its first value.
proof fn lemma_additions_so_far(b: UsersBuilder, pairs: Seq<ParamView>, steps: Seq<UsersBuilder>, n: int)
    requires
        keys_sorted(b.custom_attributes@),
        steps.len() == pairs.len() + 1,
        steps[0] == b,
        forall|i: int|
            0 <= i < pairs.len() ==> #[trigger] is_custom_attribute_result(
                steps[i],
                pairs[i].0,
                pairs[i].1,
                steps[i + 1],
            ),
        0 <= n <= pairs.len(),
    ensures
        keys_sorted(steps[n].custom_attributes@),
        same_other_fields(b, steps[n]),
        forall|k: Seq<char>|
            #[trigger] attribute_lookup(steps[n].custom_attributes@, k) == match last_value_for(
                pairs.take(n),
                k,
            ) {
                Some(v) => Some(v),
                None => attribute_lookup(b.custom_attributes@, k),
            },
    decreases n,
{
    if n > 0 {
        lemma_additions_so_far(b, pairs, steps, n - 1);
        let m = n - 1;
        assert(is_custom_attribute_result(steps[m], pairs[m].0, pairs[m].1, steps[m + 1]));
        assert(m + 1 == n);
        assert(pairs.take(n).drop_last() =~= pairs.take(n - 1));
        assert(pairs.take(n).last() == pairs[n - 1]);
        assert forall|k: Seq<char>|
            #[trigger] attribute_lookup(steps[n].custom_attributes@, k) == match last_value_for(
                pairs.take(n),
                k,
            ) {
                Some(v) => Some(v),
                None => attribute_lookup(b.custom_attributes@, k),
            } by {
            assert(attribute_lookup(steps[n - 1].custom_attributes@, k) == match last_value_for(
                pairs.take(n - 1),
                k,
            ) {
                Some(v) => Some(v),
                None => attribute_lookup(b.custom_attributes@, k),
            });
        }
    } else {
        assert(pairs.take(0) =~= Seq::<ParamView>::empty());
    }
}

/// Adding several custom attributes at once leaves the builder as adding
/// them one by one, in order, would: the same attributes in the same order,
/// and every other field as it was.
pub proof fn lemma_custom_attributes_one_by_one(
    b: UsersBuilder,
    pairs: Seq<ParamView>,
    steps: Seq<UsersBuilder>,
    r: UsersBuilder,
)
    requires
        keys_sorted(b.custom_attributes@),
        steps.len() == pairs.len() + 1,
        steps[0] == b,
        forall|i: int|
            0 <= i < pairs.len() ==> #[trigger] is_custom_attribute_result(
                steps[i],
                pairs[i].0,
                pairs[i].1,
                steps[i + 1],
            ),
        is_custom_attributes_result(b, pairs, r),
    ensures
        r.custom_attributes@ == steps.last().custom_attributes@,
        same_other_fields(r, steps.last()),
{
    let n = pairs.len() as int;
    lemma_additions_so_far(b, pairs, steps, n);
    assert(pairs.take(n) =~= pairs);
    assert(steps.last() == steps[n]);
    assert forall|k: Seq<char>|
        #[trigger] attribute_lookup(r.custom_attributes@, k) == attribute_lookup(
            steps.last().custom_attributes@,
            k,
        ) by {
        assert(attribute_lookup(steps[n].custom_attributes@, k) == match last_value_for(
            pairs.take(n),
            k,
        ) {
            Some(v) => Some(v),
            None => attribute_lookup(b.custom_attributes@, k),
        });
    }
    lemma_sorted_lookup_unique(r.custom_attributes@, steps.last().custom_attributes@);
}

/// Custom attributes to search users by, kept sorted by key with each key
/// at most once, like a map.
#[derive(Debug)]
pub struct CustomAttributes {
    entries: Vec<(String, String)>,
}

impl View for CustomAttributes {
    type V = Seq<ParamView>;

    closed spec fn view(&self) -> Seq<ParamView> {
        self.entries@.map_values(|p: (String, String)| (p.0@, p.1@))
    }
}

impl CustomAttributes {
    #[verifier::type_invariant]
    spec fn sorted(self) -> bool {
        keys_sorted(self@)
    }

    /// No attributes.
    pub fn new() -> (r: CustomAttributes)
        ensures
            r@ == Seq::<ParamView>::empty(),
    {
        let r = CustomAttributes { entries: Vec::new() };
        assert(r@ =~= Seq::<ParamView>::empty());
        r
    }

    /// The number of attributes.
    pub fn len(&self) -> (r: usize)
        ensures
            r == self@.len(),
    {
        self.entries.len()
    }

    /// The attributes are always sorted by key.
    pub fn check_sorted(&self) -> (r: bool)
        ensures
            r,
            keys_sorted(self@),
    {
        proof {
            use_type_invariant(self);
        }
        true
    }

    /// Set `key` to `value`, replacing any earlier value of `key`.
    pub fn insert(&mut self, key: String, value: String)
        ensures
            keys_sorted(final(self)@),
            forall|k: Seq<char>|
                #[trigger] attribute_lookup(final(self)@, k) == if k == key@ {
                    Some(value@)
                } else {
                    attribute_lookup(old(self)@, k)
                },
    {
        proof {
            use_type_invariant(&*self);
        }
        let ghost s = self@;
        let ghost kb = vstd::utf8::encode_utf8(key@);
        let mut entries: Vec<(String, String)> = Vec::new();
        std::mem::swap(&mut entries, &mut self.entries);
        assert(entries@.map_values(|p: (String, String)| (p.0@, p.1@)) =~= s);
        let n = entries.len();
        let mut i: usize = 0;
        while i < n && compare_bytes(entries[i].0.as_str().as_bytes(), key.as_str().as_bytes())
            == KeyOrder::Less
            invariant
                n == entries@.len(),
                s == entries@.map_values(|p: (String, String)| (p.0@, p.1@)),
                kb == vstd::utf8::encode_utf8(key@),
                i <= n,
                forall|j: int| 0 <= j < i ==> bytes_lt(vstd::utf8::encode_utf8(#[trigger] s[j].0), kb),
            decreases n - i,
        {
            i = i + 1;
        }
        if i < n && compare_bytes(entries[i].0.as_str().as_bytes(), key.as_str().as_bytes())
            == KeyOrder::Equal {
            proof {
                vstd::utf8::encode_utf8_decode_utf8(key@);
                vstd::utf8::encode_utf8_decode_utf8(s[i as int].0);
                lemma_replace(s, i as int, value@);
            }
            entries.set(i, (key, value));
            assert(entries@.map_values(|p: (String, String)| (p.0@, p.1@)) =~= s.update(
                i as int,
                (s[i as int].0, value@),
            ));
        } else {
            proof {
                if i < n {
                    vstd::utf8::encode_utf8_decode_utf8(key@);
                    vstd::utf8::encode_utf8_decode_utf8(s[i as int].0);
                }
                lemma_insert(s, i as int, key@, value@);
            }
            entries.insert(i, (key, value));
            assert(entries@.map_values(|p: (String, String)| (p.0@, p.1@)) =~= s.insert(
                i as int,
                (key@, value@),
            ));
        }
        self.entries = entries;
    }

    /// Add `custom_attributes[key]=value` for each attribute, in key order.
    pub fn add_params(&self, params: &mut Params)
        ensures
            final(params)@ == old(params)@ + attribute_params(self@),
    {
        let ghost start = params@;
        let mut i: usize = 0;
        assert(attribute_params(self@).take(0) =~= Seq::<ParamView>::empty());
        while i < self.entries.len()
            invariant
                i <= self@.len(),
                self@.len() == self.entries@.len(),
                params@ == start + attribute_params(self@).take(i as int),
            decreases self@.len() - i,
        {
            let mut name = "custom_attributes[".to_owned();
            name.append(self.entries[i].0.as_str());
            name.append("]");
            params.push_string(name.as_str(), self.entries[i].1.clone());
            assert(attribute_params(self@).take(i + 1) =~= attribute_params(self@).take(i as int).push(
                attribute_params(self@)[i as int],
            ));
            i = i + 1;
        }
        assert(attribute_params(self@).take(self@.len() as int) =~= attribute_params(self@));
    }
}

/// Query for users.
#[derive(Debug)]
pub struct Users {
    /// Search for users using a query string.
    pub search: Option<String>,
    /// Get a user with a given username.
    pub username: Option<String>,
    /// Return only active users.
    pub active: Option<()>,
    /// Return only blocked users.
    pub blocked: Option<()>,
    /// Search for a user with a given external provider identity.
    pub external_provider: Option<ExternalProvider>,
    /// Whether to return external users or not.
    pub external: Option<bool>,
    /// Return users created before a given date.
    pub created_before: Option<Timestamp>,
    /// Return users created after a given date.
    pub created_after: Option<Timestamp>,
    /// Search for users with a given custom attribute set.
    pub custom_attributes: CustomAttributes,
    /// Search for users with custom attributes.
    pub with_custom_attributes: Option<bool>,
    /// Order results by a given key.
    pub order_by: Option<UserOrderBy>,
    /// The sort order for return results.
    pub sort: Option<SortOrder>,
    /// Return users with a two-factor enabled or not.
    pub two_factor: Option<EnableState>,
    /// If set to `true`, filter out users without any projects.
    pub without_projects: Option<bool>,
    /// Exclude internal users (Service Desk users or other Gitlab-managed users).
    pub exclude_internal: Option<bool>,
    /// Filter users based on administrator status.
    pub admins: Option<bool>,
}

/// Builder for [`Users`].
#[derive(Debug)]
pub struct UsersBuilder {
    pub search: Option<String>,
    pub username: Option<String>,
    pub active: Option<()>,
    pub blocked: Option<()>,
    pub external_provider: Option<ExternalProvider>,
    pub external: Option<bool>,
    pub created_before: Option<Timestamp>,
    pub created_after: Option<Timestamp>,
    pub custom_attributes: CustomAttributes,
    pub with_custom_attributes: Option<bool>,
    pub order_by: Option<UserOrderBy>,
    pub sort: Option<SortOrder>,
    pub two_factor: Option<EnableState>,
    pub without_projects: Option<bool>,
    pub exclude_internal: Option<bool>,
    pub admins: Option<bool>,
}

impl Users {
    /// Create a builder for the endpoint.
    pub fn builder() -> (r: UsersBuilder)
        ensures
            r.search is None,
            r.username is None,
            r.active is None,
            r.blocked is None,
            r.external_provider is None,
            r.external is None,
            r.created_before is None,
            r.created_after is None,
            r.custom_attributes@ == Seq::<ParamView>::empty(),
            r.with_custom_attributes is None,
            r.order_by is None,
            r.sort is None,
            r.two_factor is None,
            r.without_projects is None,
            r.exclude_internal is None,
            r.admins is None,
    {
        UsersBuilder { search: None, username: None, active: None, blocked: None, external_provider: None, external: None, created_before: None, created_after: None, custom_attributes: CustomAttributes::new(), with_custom_attributes: None, order_by: None, sort: None, two_factor: None, without_projects: None, exclude_internal: None, admins: None }
    }
}

impl UsersBuilder {
    /// Search for users using a query string.
    pub fn search(self, search: &str) -> (r: Self)
        ensures
            r.search matches Some(v) && v@ == search@,
            r.username == self.username,
            r.active == self.active,
            r.blocked == self.blocked,
            r.external_provider == self.external_provider,
            r.external == self.external,
            r.created_before == self.created_before,
            r.created_after == self.created_after,
            r.custom_attributes == self.custom_attributes,
            r.with_custom_attributes == self.with_custom_attributes,
            r.order_by == self.order_by,
            r.sort == self.sort,
            r.two_factor == self.two_factor,
            r.without_projects == self.without_projects,
            r.exclude_internal == self.exclude_internal,
            r.admins == self.admins,
    {
        let mut r = self;
        r.search = Some(search.to_owned());
        r
    }

    /// Get a user with a given username.
    pub fn username(self, username: &str) -> (r: Self)
        ensures
            r.username matches Some(v) && v@ == username@,
            r.search == self.search,
            r.active == self.active,
            r.blocked == self.blocked,
            r.external_provider == self.external_provider,
            r.external == self.external,
            r.created_before == self.created_before,
            r.created_after == self.created_after,
            r.custom_attributes == self.custom_attributes,
            r.with_custom_attributes == self.with_custom_attributes,
            r.order_by == self.order_by,
            r.sort == self.sort,
            r.two_factor == self.two_factor,
            r.without_projects == self.without_projects,
            r.exclude_internal == self.exclude_internal,
            r.admins == self.admins,
    {
        let mut r = self;
        r.username = Some(username.to_owned());
        r
    }

    /// Return only active users.
    pub fn active(self, active: ()) -> (r: Self)
        ensures
            r.active == Some(active),
            r.search == self.search,
            r.username == self.username,
            r.blocked == self.blocked,
            r.external_provider == self.external_provider,
            r.external == self.external,
            r.created_before == self.created_before,
            r.created_after == self.created_after,
            r.custom_attributes == self.custom_attributes,
            r.with_custom_attributes == self.with_custom_attributes,
            r.order_by == self.order_by,
            r.sort == self.sort,
            r.two_factor == self.two_factor,
            r.without_projects == self.without_projects,
            r.exclude_internal == self.exclude_internal,
            r.admins == self.admins,
    {
        let mut r = self;
        r.active = Some(active);
        r
    }

    /// Return only blocked users.
    pub fn blocked(self, blocked: ()) -> (r: Self)
        ensures
            r.blocked == Some(blocked),
            r.search == self.search,
            r.username == self.username,
            r.active == self.active,
            r.external_provider == self.external_provider,
            r.external == self.external,
            r.created_before == self.created_before,
            r.created_after == self.created_after,
            r.custom_attributes == self.custom_attributes,
            r.with_custom_attributes == self.with_custom_attributes,
            r.order_by == self.order_by,
            r.sort == self.sort,
            r.two_factor == self.two_factor,
            r.without_projects == self.without_projects,
            r.exclude_internal == self.exclude_internal,
            r.admins == self.admins,
    {
        let mut r = self;
        r.blocked = Some(blocked);
        r
    }

    /// Search for a user with a given external provider identity.
    pub fn external_provider(self, external_provider: ExternalProvider) -> (r: Self)
        ensures
            r.external_provider == Some(external_provider),
            r.search == self.search,
            r.username == self.username,
            r.active == self.active,
            r.blocked == self.blocked,
            r.external == self.external,
            r.created_before == self.created_before,
            r.created_after == self.created_after,
            r.custom_attributes == self.custom_attributes,
            r.with_custom_attributes == self.with_custom_attributes,
            r.order_by == self.order_by,
            r.sort == self.sort,
            r.two_factor == self.two_factor,
            r.without_projects == self.without_projects,
            r.exclude_internal == self.exclude_internal,
            r.admins == self.admins,
    {
        let mut r = self;
        r.external_provider = Some(external_provider);
        r
    }

    /// Whether to return external users or not.
    pub fn external(self, external: bool) -> (r: Self)
        ensures
            r.external == Some(external),
            r.search == self.search,
            r.username == self.username,
            r.active == self.active,
            r.blocked == self.blocked,
            r.external_provider == self.external_provider,
            r.created_before == self.created_before,
            r.created_after == self.created_after,
            r.custom_attributes == self.custom_attributes,
            r.with_custom_attributes == self.with_custom_attributes,
            r.order_by == self.order_by,
            r.sort == self.sort,
            r.two_factor == self.two_factor,
            r.without_projects == self.without_projects,
            r.exclude_internal == self.exclude_internal,
            r.admins == self.admins,
    {
        let mut r = self;
        r.external = Some(external);
        r
    }

    /// Return users created before a given date.
    pub fn created_before(self, created_before: Timestamp) -> (r: Self)
        ensures
            r.created_before == Some(created_before),
            r.search == self.search,
            r.username == self.username,
            r.active == self.active,
            r.blocked == self.blocked,
            r.external_provider == self.external_provider,
            r.external == self.external,
            r.created_after == self.created_after,
            r.custom_attributes == self.custom_attributes,
            r.with_custom_attributes == self.with_custom_attributes,
            r.order_by == self.order_by,
            r.sort == self.sort,
            r.two_factor == self.two_factor,
            r.without_projects == self.without_projects,
            r.exclude_internal == self.exclude_internal,
            r.admins == self.admins,
    {
        let mut r = self;
        r.created_before = Some(created_before);
        r
    }

    /// Return users created after a given date.
    pub fn created_after(self, created_after: Timestamp) -> (r: Self)
        ensures
            r.created_after == Some(created_after),
            r.search == self.search,
            r.username == self.username,
            r.active == self.active,
            r.blocked == self.blocked,
            r.external_provider == self.external_provider,
            r.external == self.external,
            r.created_before == self.created_before,
            r.custom_attributes == self.custom_attributes,
            r.with_custom_attributes == self.with_custom_attributes,
            r.order_by == self.order_by,
            r.sort == self.sort,
            r.two_factor == self.two_factor,
            r.without_projects == self.without_projects,
            r.exclude_internal == self.exclude_internal,
            r.admins == self.admins,
    {
        let mut r = self;
        r.created_after = Some(created_after);
        r
    }

    /// Search for users with custom attributes.
    pub fn with_custom_attributes(self, with_custom_attributes: bool) -> (r: Self)
        ensures
            r.with_custom_attributes == Some(with_custom_attributes),
            r.search == self.search,
            r.username == self.username,
            r.active == self.active,
            r.blocked == self.blocked,
            r.external_provider == self.external_provider,
            r.external == self.external,
            r.created_before == self.created_before,
            r.created_after == self.created_after,
            r.custom_attributes == self.custom_attributes,
            r.order_by == self.order_by,
            r.sort == self.sort,
            r.two_factor == self.two_factor,
            r.without_projects == self.without_projects,
            r.exclude_internal == self.exclude_internal,
            r.admins == self.admins,
    {
        let mut r = self;
        r.with_custom_attributes = Some(with_custom_attributes);
        r
    }

    /// Order results by a given key.
    pub fn order_by(self, order_by: UserOrderBy) -> (r: Self)
        ensures
            r.order_by == Some(order_by),
            r.search == self.search,
            r.username == self.username,
            r.active == self.active,
            r.blocked == self.blocked,
            r.external_provider == self.external_provider,
            r.external == self.external,
            r.created_before == self.created_before,
            r.created_after == self.created_after,
            r.custom_attributes == self.custom_attributes,
            r.with_custom_attributes == self.with_custom_attributes,
            r.sort == self.sort,
            r.two_factor == self.two_factor,
            r.without_projects == self.without_projects,
            r.exclude_internal == self.exclude_internal,
            r.admins == self.admins,
    {
        let mut r = self;
        r.order_by = Some(order_by);
        r
    }

    /// The sort order for return results.
    pub fn sort(self, sort: SortOrder) -> (r: Self)
        ensures
            r.sort == Some(sort),
            r.search == self.search,
            r.username == self.username,
            r.active == self.active,
            r.blocked == self.blocked,
            r.external_provider == self.external_provider,
            r.external == self.external,
            r.created_before == self.created_before,
            r.created_after == self.created_after,
            r.custom_attributes == self.custom_attributes,
            r.with_custom_attributes == self.with_custom_attributes,
            r.order_by == self.order_by,
            r.two_factor == self.two_factor,
            r.without_projects == self.without_projects,
            r.exclude_internal == self.exclude_internal,
            r.admins == self.admins,
    {
        let mut r = self;
        r.sort = Some(sort);
        r
    }

    /// Return users with a two-factor enabled or not.
    pub fn two_factor(self, two_factor: EnableState) -> (r: Self)
        ensures
            r.two_factor == Some(two_factor),
            r.search == self.search,
            r.username == self.username,
            r.active == self.active,
            r.blocked == self.blocked,
            r.external_provider == self.external_provider,
            r.external == self.external,
            r.created_before == self.created_before,
            r.created_after == self.created_after,
            r.custom_attributes == self.custom_attributes,
            r.with_custom_attributes == self.with_custom_attributes,
            r.order_by == self.order_by,
            r.sort == self.sort,
            r.without_projects == self.without_projects,
            r.exclude_internal == self.exclude_internal,
            r.admins == self.admins,
    {
        let mut r = self;
        r.two_factor = Some(two_factor);
        r
    }

    /// If set to `true`, filter out users without any projects.
    pub fn without_projects(self, without_projects: bool) -> (r: Self)
        ensures
            r.without_projects == Some(without_projects),
            r.search == self.search,
            r.username == self.username,
            r.active == self.active,
            r.blocked == self.blocked,
            r.external_provider == self.external_provider,
            r.external == self.external,
            r.created_before == self.created_before,
            r.created_after == self.created_after,
            r.custom_attributes == self.custom_attributes,
            r.with_custom_attributes == self.with_custom_attributes,
            r.order_by == self.order_by,
            r.sort == self.sort,
            r.two_factor == self.two_factor,
            r.exclude_internal == self.exclude_internal,
            r.admins == self.admins,
    {
        let mut r = self;
        r.without_projects = Some(without_projects);
        r
    }

    /// Exclude internal users (Service Desk users or other Gitlab-managed users).
    pub fn exclude_internal(self, exclude_internal: bool) -> (r: Self)
        ensures
            r.exclude_internal == Some(exclude_internal),
            r.search == self.search,
            r.username == self.username,
            r.active == self.active,
            r.blocked == self.blocked,
            r.external_provider == self.external_provider,
            r.external == self.external,
            r.created_before == self.created_before,
            r.created_after == self.created_after,
            r.custom_attributes == self.custom_attributes,
            r.with_custom_attributes == self.with_custom_attributes,
            r.order_by == self.order_by,
            r.sort == self.sort,
            r.two_factor == self.two_factor,
            r.without_projects == self.without_projects,
            r.admins == self.admins,
    {
        let mut r = self;
        r.exclude_internal = Some(exclude_internal);
        r
    }

    /// Filter users based on administrator status.
    pub fn admins(self, admins: bool) -> (r: Self)
        ensures
            r.admins == Some(admins),
            r.search == self.search,
            r.username == self.username,
            r.active == self.active,
            r.blocked == self.blocked,
            r.external_provider == self.external_provider,
            r.external == self.external,
            r.created_before == self.created_before,
            r.created_after == self.created_after,
            r.custom_attributes == self.custom_attributes,
            r.with_custom_attributes == self.with_custom_attributes,
            r.order_by == self.order_by,
            r.sort == self.sort,
            r.two_factor == self.two_factor,
            r.without_projects == self.without_projects,
            r.exclude_internal == self.exclude_internal,
    {
        let mut r = self;
        r.admins = Some(admins);
        r
    }

    /// Add a custom attribute search parameter.
    pub fn custom_attribute(self, key: &str, value: &str) -> (r: Self)
        ensures
            forall|k: Seq<char>|
                #[trigger] attribute_lookup(r.custom_attributes@, k) == if k == key@ {
                    Some(value@)
                } else {
                    attribute_lookup(self.custom_attributes@, k)
                },
            keys_sorted(r.custom_attributes@),
            r.search == self.search,
            r.username == self.username,
            r.active == self.active,
            r.blocked == self.blocked,
            r.external_provider == self.external_provider,
            r.external == self.external,
            r.created_before == self.created_before,
            r.created_after == self.created_after,
            r.with_custom_attributes == self.with_custom_attributes,
            r.order_by == self.order_by,
            r.sort == self.sort,
            r.two_factor == self.two_factor,
            r.without_projects == self.without_projects,
            r.exclude_internal == self.exclude_internal,
            r.admins == self.admins,
            is_custom_attribute_result(self, key@, value@, r),
    {
        let mut r = self;
        r.custom_attributes.insert(key.to_owned(), value.to_owned());
        r
    }

    /// Add multiple custom attribute search parameters, in order; a later
    /// value for a key replaces an earlier one.
    pub fn custom_attributes(self, attributes: &[(&str, &str)]) -> (r: Self)
        ensures
            forall|k: Seq<char>|
                #[trigger] attribute_lookup(r.custom_attributes@, k) == match last_value_for(
                    str_pairs(attributes@),
                    k,
                ) {
                    Some(v) => Some(v),
                    None => attribute_lookup(self.custom_attributes@, k),
                },
            keys_sorted(r.custom_attributes@),
            r.search == self.search,
            r.username == self.username,
            r.active == self.active,
            r.blocked == self.blocked,
            r.external_provider == self.external_provider,
            r.external == self.external,
            r.created_before == self.created_before,
            r.created_after == self.created_after,
            r.with_custom_attributes == self.with_custom_attributes,
            r.order_by == self.order_by,
            r.sort == self.sort,
            r.two_factor == self.two_factor,
            r.without_projects == self.without_projects,
            r.exclude_internal == self.exclude_internal,
            r.admins == self.admins,
            is_custom_attributes_result(self, str_pairs(attributes@), r),
    {
        let mut r = self;
        let ghost pairs = str_pairs(attributes@);
        let mut i: usize = 0;
        while i < attributes.len()
            invariant
                i <= attributes@.len(),
                pairs == str_pairs(attributes@),
                forall|k: Seq<char>|
                    #[trigger] attribute_lookup(r.custom_attributes@, k) == match last_value_for(
                        pairs.take(i as int),
                        k,
                    ) {
                        Some(v) => Some(v),
                        None => attribute_lookup(self.custom_attributes@, k),
                    },
                r.search == self.search,
                r.username == self.username,
                r.active == self.active,
                r.blocked == self.blocked,
                r.external_provider == self.external_provider,
                r.external == self.external,
                r.created_before == self.created_before,
                r.created_after == self.created_after,
                r.with_custom_attributes == self.with_custom_attributes,
                r.order_by == self.order_by,
                r.sort == self.sort,
                r.two_factor == self.two_factor,
                r.without_projects == self.without_projects,
                r.exclude_internal == self.exclude_internal,
                r.admins == self.admins,
            decreases attributes@.len() - i,
        {
            let (key, value) = attributes[i];
            r.custom_attributes.insert(key.to_owned(), value.to_owned());
            assert(pairs.take(i + 1).drop_last() =~= pairs.take(i as int));
            i = i + 1;
        }
        assert(pairs.take(attributes@.len() as int) =~= pairs);
        proof {
            use_type_invariant(&r.custom_attributes);
        }
        r
    }

    /// Build the endpoint.
    pub fn build(self) -> (r: Result<Users, BuilderError>)
        ensures
            r matches Ok(v) && v.search == self.search && v.username == self.username && v.active == self.active && v.blocked == self.blocked && v.external_provider == self.external_provider && v.external == self.external && v.created_before == self.created_before && v.created_after == self.created_after && v.custom_attributes == self.custom_attributes && v.with_custom_attributes == self.with_custom_attributes && v.order_by == self.order_by && v.sort == self.sort && v.two_factor == self.two_factor && v.without_projects == self.without_projects && v.exclude_internal == self.exclude_internal && v.admins == self.admins,
    {
        Ok(Users { search: self.search, username: self.username, active: self.active, blocked: self.blocked, external_provider: self.external_provider, external: self.external, created_before: self.created_before, created_after: self.created_after, custom_attributes: self.custom_attributes, with_custom_attributes: self.with_custom_attributes, order_by: self.order_by, sort: self.sort, two_factor: self.two_factor, without_projects: self.without_projects, exclude_internal: self.exclude_internal, admins: self.admins })
    }
}

impl Endpoint for Users {
    open spec fn spec_method(&self) -> Method {
        Method::Get
    }

    open spec fn spec_endpoint(&self) -> Seq<char> {
        "users"@
    }

    open spec fn spec_parameters(&self) -> Seq<ParamView> {
        opt_pair("search"@, opt_value(self.search)) + opt_pair("username"@, opt_value(self.username)) + opt_pair("active"@, match self.active { Some(_) => Some("true"@), None => None }) + opt_pair("blocked"@, match self.blocked { Some(_) => Some("true"@), None => None }) + opt_pair("external"@, opt_value(self.external)) + opt_pair("created_before"@, opt_value(self.created_before)) + opt_pair("created_after"@, opt_value(self.created_after)) + attribute_params(self.custom_attributes@) + opt_pair("with_custom_attributes"@, opt_value(self.with_custom_attributes)) + opt_pair("order_by"@, opt_value(self.order_by)) + opt_pair("sort"@, opt_value(self.sort)) + opt_pair("two_factor"@, opt_value(self.two_factor)) + opt_pair("without_projects"@, opt_value(self.without_projects)) + opt_pair("exclude_internal"@, opt_value(self.exclude_internal)) + opt_pair("admins"@, opt_value(self.admins)) + (match self.external_provider { Some(e) => seq![("extern_uid"@, e.uid@), ("provider"@, e.name@)], None => Seq::<ParamView>::empty() })
    }

    open spec fn spec_body(&self) -> Option<Seq<ParamView>> {
        None
    }

    fn method(&self) -> (r: Method) {
        Method::Get
    }

    fn endpoint(&self) -> (r: String) {
        let mut r = "users".to_owned();
        r
    }

    fn parameters(&self) -> (r: Params) {
        let mut p = Params::new();
        p.push_opt("search", &self.search);
        p.push_opt("username", &self.username);
        if self.active.is_some() {
            p.push_str("active", "true");
        }
        if self.blocked.is_some() {
            p.push_str("blocked", "true");
        }
        p.push_opt("external", &self.external);
        p.push_opt("created_before", &self.created_before);
        p.push_opt("created_after", &self.created_after);
        self.custom_attributes.add_params(&mut p);
        p.push_opt("with_custom_attributes", &self.with_custom_attributes);
        p.push_opt("order_by", &self.order_by);
        p.push_opt("sort", &self.sort);
        p.push_opt("two_factor", &self.two_factor);
        p.push_opt("without_projects", &self.without_projects);
        p.push_opt("exclude_internal", &self.exclude_internal);
        p.push_opt("admins", &self.admins);
        match &self.external_provider {
            Some(e) => {
                p.push_str("extern_uid", e.uid.as_str());
                p.push_str("provider", e.name.as_str());
            },
            None => {},
        }
        assert(p@ =~= opt_pair("search"@, opt_value(self.search)) + opt_pair("username"@, opt_value(self.username)) + opt_pair("active"@, match self.active { Some(_) => Some("true"@), None => None }) + opt_pair("blocked"@, match self.blocked { Some(_) => Some("true"@), None => None }) + opt_pair("external"@, opt_value(self.external)) + opt_pair("created_before"@, opt_value(self.created_before)) + opt_pair("created_after"@, opt_value(self.created_after)) + attribute_params(self.custom_attributes@) + opt_pair("with_custom_attributes"@, opt_value(self.with_custom_attributes)) + opt_pair("order_by"@, opt_value(self.order_by)) + opt_pair("sort"@, opt_value(self.sort)) + opt_pair("two_factor"@, opt_value(self.two_factor)) + opt_pair("without_projects"@, opt_value(self.without_projects)) + opt_pair("exclude_internal"@, opt_value(self.exclude_internal)) + opt_pair("admins"@, opt_value(self.admins)) + (match self.external_provider { Some(e) => seq![("extern_uid"@, e.uid@), ("provider"@, e.name@)], None => Seq::<ParamView>::empty() }));
        p
    }

    fn body(&self) -> (r: Option<(&'static str, Vec<u8>)>) {
        None
    }
}

impl Pageable for Users {
    open spec fn spec_use_keyset_pagination(&self) -> bool {
        false
    }

    fn use_keyset_pagination(&self) -> (r: bool) {
        false
    }
}

} // verus!
