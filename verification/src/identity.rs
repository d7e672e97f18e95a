//! Users, their options and federation data.
use vstd::prelude::*;
use crate::util::{opt_str, opt_string_eq, strings_eq, strs};

verus! {

/// The views of a sequence of string lists.
pub open spec fn str_lists(v: Seq<Vec<String>>) -> Seq<Seq<Seq<char>>> {
    v.map_values(|l: Vec<String>| strs(l@))
}

/// Compares two lists of string lists by content.
pub fn string_lists_eq(a: &Vec<Vec<String>>, b: &Vec<Vec<String>>) -> (res: bool)
    ensures
        res == (str_lists(a@) == str_lists(b@)),
{
    if a.len() != b.len() {
        assert(str_lists(a@).len() != str_lists(b@).len());
        return false;
    }
    let mut i: usize = 0;
    while i < a.len()
        invariant
            a.len() == b.len(),
            i <= a.len(),
            forall|j: int| 0 <= j < i ==> strs(a@[j]@) == strs(b@[j]@),
        decreases a.len() - i,
    {
        if !strings_eq(&a[i], &b[i]) {
            assert(str_lists(a@)[i as int] != str_lists(b@)[i as int]);
            return false;
        }
        i += 1;
    }
    assert(str_lists(a@) =~= str_lists(b@));
    true
}

/// User options.
pub struct UserOptions {
    pub ignore_change_password_upon_first_use: Option<bool>,
    pub ignore_password_expiry: Option<bool>,
    pub ignore_lockout_failure_attempts: Option<bool>,
    pub lock_password: Option<bool>,
    pub ignore_user_inactivity: Option<bool>,
    pub multi_factor_auth_rules: Option<Vec<Vec<String>>>,
    pub multi_factor_auth_enabled: Option<bool>,
    /// Identifies whether the user is a service account.
    pub is_service_account: Option<bool>,
}

/// The content of [`UserOptions`].
pub struct UserOptionsView {
    pub ignore_change_password_upon_first_use: Option<bool>,
    pub ignore_password_expiry: Option<bool>,
    pub ignore_lockout_failure_attempts: Option<bool>,
    pub lock_password: Option<bool>,
    pub ignore_user_inactivity: Option<bool>,
    pub multi_factor_auth_rules: Option<Seq<Seq<Seq<char>>>>,
    pub multi_factor_auth_enabled: Option<bool>,
    pub is_service_account: Option<bool>,
}

impl View for UserOptions {
    type V = UserOptionsView;

    open spec fn view(&self) -> UserOptionsView {
        UserOptionsView {
            ignore_change_password_upon_first_use: self.ignore_change_password_upon_first_use,
            ignore_password_expiry: self.ignore_password_expiry,
            ignore_lockout_failure_attempts: self.ignore_lockout_failure_attempts,
            lock_password: self.lock_password,
            ignore_user_inactivity: self.ignore_user_inactivity,
            multi_factor_auth_rules: match self.multi_factor_auth_rules {
                Some(r) => Some(str_lists(r@)),
                None => None,
            },
            multi_factor_auth_enabled: self.multi_factor_auth_enabled,
            is_service_account: self.is_service_account,
        }
    }
}

impl UserOptions {
    /// Options with nothing set.
    pub fn empty() -> (res: UserOptions)
        ensures
            res.ignore_change_password_upon_first_use is None,
            res.ignore_password_expiry is None,
            res.ignore_lockout_failure_attempts is None,
            res.lock_password is None,
            res.ignore_user_inactivity is None,
            res.multi_factor_auth_rules is None,
            res.multi_factor_auth_enabled is None,
            res.is_service_account is None,
    {
        UserOptions {
            ignore_change_password_upon_first_use: None,
            ignore_password_expiry: None,
            ignore_lockout_failure_attempts: None,
            lock_password: None,
            ignore_user_inactivity: None,
            multi_factor_auth_rules: None,
            multi_factor_auth_enabled: None,
            is_service_account: None,
        }
    }

    /// Compares two option sets by content.
    pub fn same_as(&self, other: &UserOptions) -> (res: bool)
        ensures
            res == (self@ == other@),
    {
        let rules_eq = match (&self.multi_factor_auth_rules, &other.multi_factor_auth_rules) {
            (Some(a), Some(b)) => string_lists_eq(a, b),
            (None, None) => true,
            _ => false,
        };
        self.ignore_change_password_upon_first_use == other.ignore_change_password_upon_first_use
            && self.ignore_password_expiry == other.ignore_password_expiry
            && self.ignore_lockout_failure_attempts == other.ignore_lockout_failure_attempts
            && self.lock_password == other.lock_password
            && self.ignore_user_inactivity == other.ignore_user_inactivity && rules_eq
            && self.multi_factor_auth_enabled == other.multi_factor_auth_enabled
            && self.is_service_account == other.is_service_account
    }
}

/// Federation protocol data.
pub struct FederationProtocol {
    /// Federation protocol ID.
    pub protocol_id: String,
    /// Unique ID of the associated user.
    pub unique_id: String,
}

/// User federation data.
pub struct Federation {
    /// Identity provider ID.
    pub idp_id: String,
    /// Protocols.
    pub protocols: Vec<FederationProtocol>,
    /// Unique ID of the user within the IdP.
    pub unique_id: String,
}

/// The content of a [`Federation`].
pub struct FederationView {
    pub idp_id: Seq<char>,
    pub protocols: Seq<(Seq<char>, Seq<char>)>,
    pub unique_id: Seq<char>,
}

impl View for Federation {
    type V = FederationView;

    open spec fn view(&self) -> FederationView {
        FederationView {
            idp_id: self.idp_id@,
            protocols: self.protocols@.map_values(
                |p: FederationProtocol| (p.protocol_id@, p.unique_id@),
            ),
            unique_id: self.unique_id@,
        }
    }
}

impl Federation {
    /// Compares two federation entries by content.
    pub fn same_as(&self, other: &Federation) -> (res: bool)
        ensures
            res == (self@ == other@),
    {
        if !(self.idp_id == other.idp_id) || !(self.unique_id == other.unique_id) {
            return false;
        }
        if self.protocols.len() != other.protocols.len() {
            assert(self@.protocols.len() != other@.protocols.len());
            return false;
        }
        let mut i: usize = 0;
        while i < self.protocols.len()
            invariant
                self.protocols.len() == other.protocols.len(),
                i <= self.protocols.len(),
                forall|j: int|
                    0 <= j < i ==> self.protocols@[j].protocol_id@
                        == other.protocols@[j].protocol_id@ && self.protocols@[j].unique_id@
                        == other.protocols@[j].unique_id@,
            decreases self.protocols.len() - i,
        {
            if !(self.protocols[i].protocol_id == other.protocols[i].protocol_id)
                || !(self.protocols[i].unique_id == other.protocols[i].unique_id) {
                assert(self@.protocols[i as int] != other@.protocols[i as int]);
                return false;
            }
            i += 1;
        }
        assert(self@.protocols =~= other@.protocols);
        true
    }
}

/// The views of a list of federation entries.
pub open spec fn federation_views(v: Seq<Federation>) -> Seq<FederationView> {
    v.map_values(|f: Federation| f@)
}

/// Compares two optional federation lists by content.
#[verifier::loop_isolation(false)]
pub fn federations_eq(a: &Option<Vec<Federation>>, b: &Option<Vec<Federation>>) -> (res: bool)
    ensures
        res == (match (a, b) {
            (Some(x), Some(y)) => federation_views(x@) == federation_views(y@),
            (None, None) => true,
            _ => false,
        }),
{
    match (a, b) {
        (Some(x), Some(y)) => {
            if x.len() != y.len() {
                assert(federation_views(x@).len() != federation_views(y@).len());
                return false;
            }
            let mut i: usize = 0;
            while i < x.len()
                invariant
                    x.len() == y.len(),
                    i <= x.len(),
                    forall|j: int| 0 <= j < i ==> x@[j]@ == y@[j]@,
                decreases x.len() - i,
            {
                if !x[i].same_as(&y[i]) {
                    assert(federation_views(x@)[i as int] != federation_views(y@)[i as int]);
                    return false;
                }
                i += 1;
            }
            assert(federation_views(x@) =~= federation_views(y@));
            true
        },
        (None, None) => true,
        _ => false,
    }
}

/// A user as returned by the identity backend.
pub struct UserResponse {
    /// The ID of the default project for the user.
    pub default_project_id: Option<String>,
    /// The ID of the domain.
    pub domain_id: String,
    /// Whether the user is enabled.
    pub enabled: bool,
    /// Federated identities of the user.
    pub federated: Option<Vec<Federation>>,
    /// The user ID.
    pub id: String,
    /// The user name.
    pub name: String,
    /// The options for the user.
    pub options: UserOptions,
    /// Password expiry, in seconds since the epoch.
    pub password_expires_at: Option<i64>,
}

/// The content of a [`UserResponse`].
pub struct UserResponseView {
    pub default_project_id: Option<Seq<char>>,
    pub domain_id: Seq<char>,
    pub enabled: bool,
    pub federated: Option<Seq<FederationView>>,
    pub id: Seq<char>,
    pub name: Seq<char>,
    pub options: UserOptionsView,
    pub password_expires_at: Option<i64>,
}

impl View for UserResponse {
    type V = UserResponseView;

    open spec fn view(&self) -> UserResponseView {
        UserResponseView {
            default_project_id: opt_str(self.default_project_id),
            domain_id: self.domain_id@,
            enabled: self.enabled,
            federated: match self.federated {
                Some(f) => Some(federation_views(f@)),
                None => None,
            },
            id: self.id@,
            name: self.name@,
            options: self.options@,
            password_expires_at: self.password_expires_at,
        }
    }
}

impl UserResponse {
    /// Compares two users by content.
    pub fn same_as(&self, other: &UserResponse) -> (res: bool)
        ensures
            res == (self@ == other@),
    {
        opt_string_eq(&self.default_project_id, &other.default_project_id) && self.domain_id
            == other.domain_id && self.enabled == other.enabled && federations_eq(
            &self.federated,
            &other.federated,
        ) && self.id == other.id && self.name == other.name && self.options.same_as(
            &other.options,
        ) && self.password_expires_at == other.password_expires_at
    }
}

/// User listing parameters.
pub struct UserListParameters {
    /// Filter users by the domain.
    pub domain_id: Option<String>,
    /// Filter users by the name attribute.
    pub name: Option<String>,
    /// Filter users by the federated unique ID.
    pub unique_id: Option<String>,
    /// Filter users by User Type.
    pub user_type: Option<UserType>,
}

/// User type for filtering.
#[derive(PartialEq, Eq, Structural, Clone, Copy, Debug)]
pub enum UserType {
    /// All users (default behavior).
    All,
    /// Federated users only.
    Federated,
    /// Local users only (with passwords).
    Local,
    /// Non-local users.
    NonLocal,
    /// Service Accounts.
    ServiceAccount,
}

impl Default for UserType {
    fn default() -> (res: UserType)
        ensures
            res == UserType::All,
    {
        UserType::All
    }
}

/// Domain reference in a password authentication request.
pub struct Domain {
    /// Domain ID.
    pub id: Option<String>,
    /// Domain Name.
    pub name: Option<String>,
}

/// User password authentication request.
pub struct UserPasswordAuthRequest {
    /// User ID.
    pub id: Option<String>,
    /// User Name.
    pub name: Option<String>,
    /// User domain.
    pub domain: Option<Domain>,
    /// The password.
    pub password: String,
}

} // verus!
