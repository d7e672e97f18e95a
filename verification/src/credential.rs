//! Tokens, token restrictions, trusts and application credentials.
use vstd::prelude::*;
use crate::role::{RoleRef, RoleRefView, opt_role_views, opt_role_refs_eq, role_views};
use crate::util::{opt_str, opt_string_eq, strs};

verus! {

/// The payload of a token presented for authentication.
pub struct FernetToken {
    /// The user the token was issued for.
    pub user_id: String,
    /// Authentication methods that produced the token.
    pub methods: Vec<String>,
    /// Audit IDs of the token chain.
    pub audit_ids: Vec<String>,
    /// Expiry, in seconds since the epoch.
    pub expires_at: i64,
}

impl FernetToken {
    /// The audit IDs of the token.
    pub fn audit_ids(&self) -> (res: &Vec<String>)
        ensures
            res == &self.audit_ids,
    {
        &self.audit_ids
    }

    /// The authentication methods of the token.
    pub fn methods(&self) -> (res: &Vec<String>)
        ensures
            res == &self.methods,
    {
        &self.methods
    }
}

/// Token restriction: narrows the scope and roles of derived tokens.
pub struct TokenRestriction {
    /// The restriction ID.
    pub id: String,
    /// The owning domain.
    pub domain_id: String,
    /// Whether rescoping is allowed.
    pub allow_rescope: bool,
    /// Whether renewal is allowed.
    pub allow_renew: bool,
    /// IDs of the roles the restriction grants.
    pub role_ids: Vec<String>,
    /// Resolved roles of the restriction, when known.
    pub roles: Option<Vec<RoleRef>>,
    /// The project the restriction binds to.
    pub project_id: Option<String>,
    /// The user the restriction binds to.
    pub user_id: Option<String>,
}

/// A trust: delegation of roles from the trustor to the trustee.
pub struct Trust {
    /// The trust ID.
    pub id: String,
    /// The delegating user.
    pub trustor_user_id: String,
    /// The user the roles are delegated to.
    pub trustee_user_id: String,
    /// Whether the trustee impersonates the trustor.
    pub impersonation: bool,
    /// The project the trust is bound to.
    pub project_id: Option<String>,
    /// Expiry, in seconds since the epoch.
    pub expires_at: Option<i64>,
    /// Deletion time, in seconds since the epoch.
    pub deleted_at: Option<i64>,
    /// Remaining uses of the trust.
    pub remaining_uses: Option<u32>,
    /// The trust this one was redelegated from.
    pub redelegated_trust_id: Option<String>,
    /// Allowed depth of further redelegation.
    pub redelegation_count: Option<u32>,
    /// Roles delegated by the trust.
    pub roles: Option<Vec<RoleRef>>,
}

/// The content of a [`Trust`].
pub struct TrustView {
    pub id: Seq<char>,
    pub trustor_user_id: Seq<char>,
    pub trustee_user_id: Seq<char>,
    pub impersonation: bool,
    pub project_id: Option<Seq<char>>,
    pub expires_at: Option<i64>,
    pub deleted_at: Option<i64>,
    pub remaining_uses: Option<u32>,
    pub redelegated_trust_id: Option<Seq<char>>,
    pub redelegation_count: Option<u32>,
    pub roles: Option<Seq<RoleRefView>>,
}

impl View for Trust {
    type V = TrustView;

    open spec fn view(&self) -> TrustView {
        TrustView {
            id: self.id@,
            trustor_user_id: self.trustor_user_id@,
            trustee_user_id: self.trustee_user_id@,
            impersonation: self.impersonation,
            project_id: opt_str(self.project_id),
            expires_at: self.expires_at,
            deleted_at: self.deleted_at,
            remaining_uses: self.remaining_uses,
            redelegated_trust_id: opt_str(self.redelegated_trust_id),
            redelegation_count: self.redelegation_count,
            roles: opt_role_views(self.roles),
        }
    }
}

impl Trust {
    /// Compares two trusts by content.
    pub fn same_as(&self, other: &Trust) -> (res: bool)
        ensures
            res == (self@ == other@),
    {
        self.id == other.id && self.trustor_user_id == other.trustor_user_id
            && self.trustee_user_id == other.trustee_user_id && self.impersonation
            == other.impersonation && opt_string_eq(&self.project_id, &other.project_id)
            && self.expires_at == other.expires_at && self.deleted_at == other.deleted_at
            && self.remaining_uses == other.remaining_uses && opt_string_eq(
            &self.redelegated_trust_id,
            &other.redelegated_trust_id,
        ) && self.redelegation_count == other.redelegation_count && opt_role_refs_eq(
            &self.roles,
            &other.roles,
        )
    }
}

/// An application credential.
pub struct ApplicationCredential {
    /// The credential ID.
    pub id: String,
    /// The owning user.
    pub user_id: String,
    /// The project the credential is bound to.
    pub project_id: String,
    /// The credential name.
    pub name: String,
    /// Optional description.
    pub description: Option<String>,
    /// Roles frozen on the credential.
    pub roles: Vec<RoleRef>,
    /// Whether the credential may create further credentials.
    pub unrestricted: bool,
    /// Expiry, in seconds since the epoch.
    pub expires_at: Option<i64>,
}

} // verus!
