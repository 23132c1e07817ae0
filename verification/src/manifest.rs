//! The manifest of a lens: its identity, its security policy, the message
//! types it emits and the lenses it depends on.

use vstd::prelude::*;
use crate::text::{find_from, position_from, same_text};

verus! {

/// Lens manifest, as a `lens.toml` file describes it.
#[derive(Debug, Clone)]
pub struct LensManifest {
    /// Core lens metadata.
    pub lens: LensMetadata,
    /// Security configuration for installation validation.
    pub security: Option<SecurityConfig>,
    /// Custom message types this lens emits.
    pub message_types: Vec<MessageType>,
    /// Lens capabilities.
    pub capabilities: Vec<String>,
    /// Dependencies on other lenses.
    pub dependencies: Vec<LensDependency>,
}

/// Security configuration for lens installation.
#[derive(Debug, Clone)]
pub struct SecurityConfig {
    /// Hash of the lens library, in the form `sha256:<hex>`.
    pub library_hash: Option<String>,
    /// Permissions requested by this lens, each `type[:action]:scope`.
    pub permissions: Vec<String>,
    /// Sandbox level for lens execution.
    pub sandbox: SandboxLevel,
}

/// Sandbox levels for lens execution, from the most to the least confined.
#[derive(Debug, Clone, Copy, PartialEq, Eq, Structural)]
pub enum SandboxLevel {
    /// No filesystem or network access.
    Restricted,
    /// Network access only, no filesystem.
    Network,
    /// Full access (requires explicit user approval).
    Full,
}

impl Default for SandboxLevel {
    fn default() -> (r: SandboxLevel)
        ensures
            r == SandboxLevel::Restricted,
    {
        SandboxLevel::Restricted
    }
}

/// A permission string taken apart.
#[derive(Debug, Clone)]
pub struct Permission {
    /// Permission type: "fs", "network", "secrets", and so on.
    pub permission_type: String,
    /// Permission action: "read", "write", "execute".
    pub action: Option<String>,
    /// Permission scope: a path, a domain or a resource identifier.
    pub scope: String,
    /// Human-readable description.
    pub description: String,
}

/// What a `Permission` holds, as plain sequences of characters.
pub struct PermissionView {
    pub permission_type: Seq<char>,
    pub action: Option<Seq<char>>,
    pub scope: Seq<char>,
    pub description: Seq<char>,
}

impl View for Permission {
    type V = PermissionView;

    open spec fn view(&self) -> PermissionView {
        PermissionView {
            permission_type: self.permission_type@,
            action: match self.action {
                Some(a) => Some(a@),
                None => None,
            },
            scope: self.scope@,
            description: self.description@,
        }
    }
}

/// What a permission string stands for. A string has as many parts as it
/// has colons, and one more. One of two parts gives a type and a scope; one
/// of three parts gives a type, an action and a scope; a string of any
/// other number of parts stands for nothing.
pub open spec fn permission_of(s: Seq<char>) -> Option<PermissionView> {
    let first = position_from(s, ':', 0);
    if first >= s.len() {
        None
    } else {
        let head = s.subrange(0, first);
        let second = position_from(s, ':', first + 1);
        if second >= s.len() {
            let scope = s.subrange(first + 1, s.len() as int);
            Some(
                PermissionView {
                    permission_type: head,
                    action: None,
                    scope,
                    description: head + " access to "@ + scope,
                },
            )
        } else if position_from(s, ':', second + 1) < s.len() {
            None
        } else {
            let action = s.subrange(first + 1, second);
            let scope = s.subrange(second + 1, s.len() as int);
            Some(
                PermissionView {
                    permission_type: head,
                    action: Some(action),
                    scope,
                    description: action + " "@ + head + " to "@ + scope,
                },
            )
        }
    }
}

/// The permissions that a list of permission strings stands for, in order,
/// without the strings that stand for none.
pub open spec fn permissions_of(strings: Seq<Seq<char>>) -> Seq<PermissionView>
    decreases strings.len(),
{
    if strings.len() == 0 {
        Seq::empty()
    } else {
        let rest = permissions_of(strings.drop_last());
        match permission_of(strings.last()) {
            Some(p) => rest.push(p),
            None => rest,
        }
    }
}

impl Permission {
    /// Parse a permission string like `fs:read:~/Documents` or
    /// `network:api.example.com`. A string of one part, or of more than
    /// three, is rejected.
    pub fn parse(permission_str: &str) -> (r: Option<Permission>)
        ensures
            r is Some <==> permission_of(permission_str@) is Some,
            r matches Some(p) ==> Some(p@) == permission_of(permission_str@),
    {
        let n = permission_str.unicode_len();
        let first = find_from(permission_str, ':', 0);
        if first >= n {
            return None;
        }
        let head = permission_str.substring_char(0, first);
        let second = find_from(permission_str, ':', first + 1);
        if second >= n {
            let scope = permission_str.substring_char(first + 1, n);
            let mut description = String::from_str(head);
            description.append(" access to ");
            description.append(scope);
            Some(
                Permission {
                    permission_type: String::from_str(head),
                    action: None,
                    scope: String::from_str(scope),
                    description,
                },
            )
        } else if find_from(permission_str, ':', second + 1) < n {
            None
        } else {
            let action = permission_str.substring_char(first + 1, second);
            let scope = permission_str.substring_char(second + 1, n);
            let mut description = String::from_str(action);
            description.append(" ");
            description.append(head);
            description.append(" to ");
            description.append(scope);
            Some(
                Permission {
                    permission_type: String::from_str(head),
                    action: Some(String::from_str(action)),
                    scope: String::from_str(scope),
                    description,
                },
            )
        }
    }
}

impl SecurityConfig {
    /// The permission strings of this configuration, as plain sequences.
    pub open spec fn permission_strings(&self) -> Seq<Seq<char>> {
        self.permissions@.map_values(|s: String| s@)
    }

    /// Parse all permission strings, leaving out those that stand for nothing.
    pub fn parsed_permissions(&self) -> (r: Vec<Permission>)
        ensures
            r@.map_values(|p: Permission| p@) == permissions_of(self.permission_strings()),
    {
        let mut out: Vec<Permission> = Vec::new();
        let mut i: usize = 0;
        while i < self.permissions.len()
            invariant
                i <= self.permissions@.len(),
                out@.map_values(|p: Permission| p@) == permissions_of(
                    self.permission_strings().subrange(0, i as int),
                ),
            decreases self.permissions@.len() - i,
        {
            let ghost prefix = self.permission_strings().subrange(0, i as int);
            let ghost next = self.permission_strings().subrange(0, i + 1);
            let ghost before = out@.map_values(|p: Permission| p@);
            assert(next.drop_last() =~= prefix);
            assert(next.last() == self.permissions@[i as int]@);
            match Permission::parse(self.permissions[i].as_str()) {
                Some(p) => {
                    let ghost pv = p@;
                    out.push(p);
                    assert(out@.map_values(|p: Permission| p@) =~= before.push(pv));
                },
                None => {},
            }
            i += 1;
        }
        assert(self.permission_strings().subrange(0, i as int) =~= self.permission_strings());
        out
    }

    /// Check if this lens requires full access.
    pub fn requires_full_access(&self) -> (r: bool)
        ensures
            r == (self.sandbox == SandboxLevel::Full),
    {
        self.sandbox == SandboxLevel::Full
    }

    /// Verify the library hash against the declared one. A configuration
    /// that declares no hash accepts every hash.
    pub fn verify_hash(&self, actual_hash: &str) -> (r: bool)
        ensures
            r == (match self.library_hash {
                Some(expected) => expected@ == actual_hash@,
                None => true,
            }),
    {
        match &self.library_hash {
            Some(expected) => same_text(expected.as_str(), actual_hash),
            None => true,
        }
    }
}

/// Core lens metadata.
#[derive(Debug, Clone)]
pub struct LensMetadata {
    /// Unique lens identifier.
    pub id: String,
    /// Human-readable lens name.
    pub name: String,
    /// Lens version (semver).
    pub version: String,
    /// Lens description.
    pub description: String,
    /// Lens author(s).
    pub authors: Vec<String>,
    /// Lens license.
    pub license: Option<String>,
    /// Lens homepage or repository URL.
    pub repository: Option<String>,
    /// Minimum framework version required.
    pub min_framework_version: Option<String>,
}

impl Default for LensMetadata {
    fn default() -> (r: LensMetadata)
        ensures
            r.id@.len() == 0,
            r.name@.len() == 0,
            r.version@ == "0.1.0"@,
            r.description@.len() == 0,
            r.authors@.len() == 0,
            r.license is None,
            r.repository is None,
            r.min_framework_version is None,
    {
        LensMetadata {
            id: String::new(),
            name: String::new(),
            version: String::from_str("0.1.0"),
            description: String::new(),
            authors: Vec::new(),
            license: None,
            repository: None,
            min_framework_version: None,
        }
    }
}

/// Custom message type definition.
#[derive(Debug, Clone)]
pub struct MessageType {
    /// Message type key; matches the key of a data event.
    pub key: String,
    /// Path to the renderer asset, relative to the lens root.
    pub component: String,
    /// Human-readable description of this message type.
    pub description: String,
    /// Whether this message type requires user input.
    pub interactive: bool,
    /// JSON schema for the message payload.
    pub schema: Option<serde_json::Value>,
}

/// Dependency on another lens.
#[derive(Debug, Clone)]
pub struct LensDependency {
    /// Lens ID.
    pub id: String,
    /// Version requirement (semver range).
    pub version: Option<String>,
}

impl LensManifest {
    /// Whether the message type at `i` is the first one declared under `key`.
    pub open spec fn is_first_declared(&self, key: Seq<char>, i: int) -> bool {
        &&& 0 <= i < self.message_types@.len()
        &&& self.message_types@[i].key@ == key
        &&& forall|j: int| 0 <= j < i ==> self.message_types@[j].key@ != key
    }

    /// Whether some message type is declared under `key`.
    pub open spec fn declares(&self, key: Seq<char>) -> bool {
        exists|i: int| 0 <= i < self.message_types@.len() && self.message_types@[i].key@ == key
    }

    /// Get message type by key: the first one declared under it.
    pub fn get_message_type(&self, key: &str) -> (r: Option<&MessageType>)
        ensures
            r is Some <==> self.declares(key@),
            r matches Some(mt) ==> exists|i: int|
                self.is_first_declared(key@, i) && *mt == self.message_types@[i],
    {
        let mut i: usize = 0;
        while i < self.message_types.len()
            invariant
                i <= self.message_types@.len(),
                forall|j: int| 0 <= j < i ==> self.message_types@[j].key@ != key@,
            decreases self.message_types@.len() - i,
        {
            if same_text(self.message_types[i].key.as_str(), key) {
                assert(self.is_first_declared(key@, i as int));
                return Some(&self.message_types[i]);
            }
            i += 1;
        }
        None
    }

    /// Check if a message type is interactive (requires user input). A key
    /// that is not declared is not interactive.
    pub fn is_interactive(&self, key: &str) -> (r: bool)
        ensures
            r == exists|i: int| self.is_first_declared(key@, i) && self.message_types@[i].interactive,
    {
        match self.get_message_type(key) {
            Some(mt) => mt.interactive,
            None => false,
        }
    }
}

} // verus!
