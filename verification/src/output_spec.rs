//! The output contract of a lens: for each output key, the shape of the
//! payload and the render hints that the framework owns.

use vstd::prelude::*;
use crate::error::LensError;
use crate::files::{path_debug, path_debug_text, Loaded};
use crate::json::{as_object, contains_key, get_member, json_has_member, json_member, json_members, map_entries};
use crate::text::{blank, is_blank, same_text};

verus! {

/// Standard output contract file name expected in each lens directory.
pub const OUTPUT_SPEC_FILENAME: &'static str = "lens.output.yaml";

/// Lens output contract, as a `lens.output.yaml` file describes it.
#[derive(Debug, Clone)]
pub struct LensOutputSpec {
    /// Lens identifier. Must match the id of the manifest.
    pub lens_id: String,
    /// Declarative output definitions.
    pub outputs: Vec<OutputDefinition>,
}

/// One output definition for a specific output key.
#[derive(Debug, Clone)]
pub struct OutputDefinition {
    /// Stable output key.
    pub key: String,
    /// Human-readable title.
    pub title: String,
    /// Human-readable description.
    pub description: String,
    /// JSON-schema-like payload descriptor.
    pub payload_schema: serde_json::Value,
    /// Framework-owned render blocks.
    pub render_blocks: Vec<RenderBlock>,
    /// Whether this output needs user interaction.
    pub interactivity: InteractivityMode,
    /// Fields that must exist in the runtime payload object.
    pub required_fields: Vec<String>,
    /// Known error modes for this output.
    pub error_modes: Vec<OutputErrorMode>,
    /// Example payloads for testing and docs.
    pub examples: Vec<serde_json::Value>,
}

/// A framework renderer block.
#[derive(Debug, Clone)]
pub struct RenderBlock {
    /// Framework block type.
    pub block_type: RenderBlockType,
    /// Optional block title.
    pub title: Option<String>,
    /// Optional payload field path this block binds to.
    pub source: Option<String>,
    /// Optional renderer-specific options.
    pub options: serde_json::Value,
}

/// Framework-owned block catalog.
#[derive(Debug, Clone, Copy, PartialEq, Eq, Structural)]
pub enum RenderBlockType {
    Header,
    KpiRow,
    Table,
    CardList,
    Timeline,
    Diff,
    JsonView,
    CheckpointGate,
    Notice,
    Actions,
}

/// Interaction mode for an output.
#[derive(Debug, Clone, Copy, PartialEq, Eq, Structural)]
pub enum InteractivityMode {
    /// The output asks nothing of the user.
    NoInteraction,
    /// The user confirms or declines.
    Confirm,
    /// The user picks among options.
    Select,
    /// The user fills in a form.
    Form,
}

impl Default for InteractivityMode {
    fn default() -> (r: InteractivityMode)
        ensures
            r == InteractivityMode::NoInteraction,
    {
        InteractivityMode::NoInteraction
    }
}

/// Structured error mode for a specific output.
#[derive(Debug, Clone)]
pub struct OutputErrorMode {
    pub code: String,
    pub message: String,
    pub recoverable: bool,
}

/// What can be wrong with one output definition.
pub enum DefinitionFault {
    /// The title is blank.
    BlankTitle,
    /// There is no render block.
    NoRenderBlock,
    /// There is no example payload.
    NoExample,
    /// A required field has a blank name.
    BlankRequiredField,
    /// An error mode has a blank code or a blank message.
    InvalidErrorMode,
    /// The payload schema declares its properties and lacks this required
    /// field among them.
    UndeclaredRequiredField(Seq<char>),
}

/// What can be wrong with an output contract.
pub enum ContractFault {
    /// The lens id is blank.
    BlankLensId,
    /// No output is declared.
    NoOutput,
    /// An output has a blank key.
    BlankKey,
    /// The key is declared a second time.
    DuplicateKey(Seq<char>),
    /// The output under this key is faulty in itself.
    Definition(Seq<char>, DefinitionFault),
}

/// What can be wrong with a runtime payload.
pub enum PayloadFault {
    /// The contract declares no output under the key.
    UndeclaredKey,
    /// Fields are required and the payload is not an object.
    NotAnObject,
    /// The payload lacks this required field.
    MissingField(Seq<char>),
}

/// The first of `fields`, at or after `from`, that is not in `present`.
pub open spec fn first_missing(fields: Seq<Seq<char>>, present: Set<Seq<char>>, from: int) -> Option<
    Seq<char>,
>
    decreases fields.len() - from,
{
    if from < 0 || from >= fields.len() {
        None
    } else if !present.contains(fields[from]) {
        Some(fields[from])
    } else {
        first_missing(fields, present, from + 1)
    }
}

/// Nothing is missing exactly when every field is present.
pub proof fn lemma_first_missing(fields: Seq<Seq<char>>, present: Set<Seq<char>>, from: int)
    requires
        0 <= from <= fields.len(),
    ensures
        first_missing(fields, present, from) is None <==> forall|i: int|
            from <= i < fields.len() ==> present.contains(#[trigger] fields[i]),
        first_missing(fields, present, from) matches Some(f) ==> !present.contains(f)
            && exists|i: int| from <= i < fields.len() && fields[i] == f,
    decreases fields.len() - from,
{
    if from < fields.len() {
        lemma_first_missing(fields, present, from + 1);
        if present.contains(fields[from]) {
            assert forall|i: int| from <= i < fields.len() && (forall|k: int|
                from + 1 <= k < fields.len() ==> present.contains(#[trigger] fields[k]))
                implies present.contains(#[trigger] fields[i]) by {
                if i > from {
                    assert(present.contains(fields[i]));
                }
            }
        }
    }
}

/// The properties that a payload schema declares: the members of its
/// `properties` member, where it is an object that has one that is an object.
pub open spec fn declared_properties(schema: serde_json::Value) -> Option<
    Map<Seq<char>, serde_json::Value>,
> {
    match json_member(schema, "properties"@) {
        Some(p) => json_members(p),
        None => None,
    }
}

/// The printed form of a fault of the output under `key`, in the contract of
/// the lens `lens_id`.
pub open spec fn definition_fault_message(
    lens_id: Seq<char>,
    key: Seq<char>,
    fault: DefinitionFault,
) -> Seq<char> {
    let head = "lens.output.yaml for '"@ + lens_id + "': output '"@ + key;
    match fault {
        DefinitionFault::BlankTitle => head + "' must have a non-empty title"@,
        DefinitionFault::NoRenderBlock => head + "' must include at least one render block"@,
        DefinitionFault::NoExample => head + "' must include at least one example payload"@,
        DefinitionFault::BlankRequiredField => head + "' has an empty required_fields entry"@,
        DefinitionFault::InvalidErrorMode => head + "' has invalid error_modes entry"@,
        DefinitionFault::UndeclaredRequiredField(field) => head + "' required field '"@ + field
            + "' is not declared in payload_schema.properties"@,
    }
}

/// The printed form of a fault of the contract of the lens `lens_id`.
pub open spec fn contract_fault_message(lens_id: Seq<char>, fault: ContractFault) -> Seq<char> {
    match fault {
        ContractFault::BlankLensId => "lens.output.yaml: lens_id is required"@,
        ContractFault::NoOutput => "lens.output.yaml for '"@ + lens_id
            + "' must declare at least one output"@,
        ContractFault::BlankKey => "lens.output.yaml for '"@ + lens_id
            + "': output key cannot be empty"@,
        ContractFault::DuplicateKey(key) => "lens.output.yaml for '"@ + lens_id
            + "': duplicate output key '"@ + key + "'"@,
        ContractFault::Definition(key, fault) => definition_fault_message(lens_id, key, fault),
    }
}

/// The printed form of a fault of a payload for the output `key`, against the
/// contract of the lens `lens_id`.
pub open spec fn payload_fault_message(lens_id: Seq<char>, key: Seq<char>, fault: PayloadFault) -> Seq<
    char,
> {
    match fault {
        PayloadFault::UndeclaredKey => "Output key '"@ + key
            + "' is not declared in lens.output.yaml for '"@ + lens_id + "'"@,
        PayloadFault::NotAnObject => "Output '"@ + key
            + "' expects an object payload to validate required_fields"@,
        PayloadFault::MissingField(field) => "Output '"@ + key + "' missing required field '"@
            + field + "'"@,
    }
}

/// An `InvalidInput` error that carries exactly this message.
pub open spec fn is_invalid_input(e: LensError, message: Seq<char>) -> bool {
    e matches LensError::InvalidInput(m) && m@ == message
}

impl OutputDefinition {
    /// The names of the required fields, in order.
    pub open spec fn field_names(&self) -> Seq<Seq<char>> {
        self.required_fields@.map_values(|s: String| s@)
    }

    /// Whether some required field has a blank name.
    pub open spec fn has_blank_field(&self) -> bool {
        exists|i: int| 0 <= i < self.required_fields@.len() && is_blank(self.required_fields@[i]@)
    }

    /// Whether some error mode has a blank code or a blank message.
    pub open spec fn has_invalid_error_mode(&self) -> bool {
        exists|i: int|
            0 <= i < self.error_modes@.len() && (is_blank(self.error_modes@[i].code@) || is_blank(
                self.error_modes@[i].message@,
            ))
    }

    /// The first thing that is wrong with this definition, if anything is.
    /// The checks are made in this order: the title, the render blocks, the
    /// examples, the names of the required fields, the error modes and, where
    /// the payload schema declares its properties, the required fields
    /// against them.
    pub open spec fn fault(&self) -> Option<DefinitionFault> {
        if is_blank(self.title@) {
            Some(DefinitionFault::BlankTitle)
        } else if self.render_blocks@.len() == 0 {
            Some(DefinitionFault::NoRenderBlock)
        } else if self.examples@.len() == 0 {
            Some(DefinitionFault::NoExample)
        } else if self.has_blank_field() {
            Some(DefinitionFault::BlankRequiredField)
        } else if self.has_invalid_error_mode() {
            Some(DefinitionFault::InvalidErrorMode)
        } else {
            match declared_properties(self.payload_schema) {
                Some(properties) => match first_missing(self.field_names(), properties.dom(), 0) {
                    Some(field) => Some(DefinitionFault::UndeclaredRequiredField(field)),
                    None => None,
                },
                None => None,
            }
        }
    }

    /// Validate this definition as part of the contract of the lens
    /// `lens_id`: succeeds exactly when nothing is wrong with it, and reports
    /// the first fault otherwise.
    #[verifier::loop_isolation(false)]
    pub fn validate(&self, lens_id: &str) -> (r: Result<(), LensError>)
        ensures
            r is Ok <==> self.fault() is None,
            r matches Err(e) ==> self.fault() matches Some(fault) && is_invalid_input(
                e,
                definition_fault_message(lens_id@, self.key@, fault),
            ),
    {
        let mut head = String::from_str("lens.output.yaml for '");
        head.append(lens_id);
        head.append("': output '");
        head.append(self.key.as_str());
        let ghost stem = head@;

        if blank(self.title.as_str()) {
            head.append("' must have a non-empty title");
            return Err(LensError::InvalidInput(head));
        }
        if self.render_blocks.len() == 0 {
            head.append("' must include at least one render block");
            return Err(LensError::InvalidInput(head));
        }
        if self.examples.len() == 0 {
            head.append("' must include at least one example payload");
            return Err(LensError::InvalidInput(head));
        }

        let mut i: usize = 0;
        while i < self.required_fields.len()
            invariant
                i <= self.required_fields@.len(),
                head@ == stem,
                forall|j: int| 0 <= j < i ==> !is_blank(self.required_fields@[j]@),
            decreases self.required_fields@.len() - i,
        {
            if blank(self.required_fields[i].as_str()) {
                assert(self.has_blank_field());
                head.append("' has an empty required_fields entry");
                return Err(LensError::InvalidInput(head));
            }
            i += 1;
        }

        let mut k: usize = 0;
        while k < self.error_modes.len()
            invariant
                k <= self.error_modes@.len(),
                head@ == stem,
                forall|j: int|
                    0 <= j < k ==> !is_blank(self.error_modes@[j].code@) && !is_blank(
                        self.error_modes@[j].message@,
                    ),
            decreases self.error_modes@.len() - k,
        {
            if blank(self.error_modes[k].code.as_str()) || blank(
                self.error_modes[k].message.as_str(),
            ) {
                assert(self.has_invalid_error_mode());
                head.append("' has invalid error_modes entry");
                return Err(LensError::InvalidInput(head));
            }
            k += 1;
        }

        // Where the payload schema declares its properties, every required
        // field has to be one of them.
        let declared = match get_member(&self.payload_schema, "properties") {
            Some(p) => as_object(p),
            None => None,
        };
        if let Some(properties) = declared {
            let ghost present = map_entries(*properties).dom();
            let mut f: usize = 0;
            while f < self.required_fields.len()
                invariant
                    f <= self.required_fields@.len(),
                    head@ == stem,
                    present == map_entries(*properties).dom(),
                    first_missing(self.field_names(), present, 0) == first_missing(
                        self.field_names(),
                        present,
                        f as int,
                    ),
                decreases self.required_fields@.len() - f,
            {
                assert(self.field_names()[f as int] == self.required_fields@[f as int]@);
                if !contains_key(properties, self.required_fields[f].as_str()) {
                    head.append("' required field '");
                    head.append(self.required_fields[f].as_str());
                    head.append("' is not declared in payload_schema.properties");
                    return Err(LensError::InvalidInput(head));
                }
                f += 1;
            }
        }
        Ok(())
    }
}

impl LensOutputSpec {
    /// Whether the output at `i` is the first one declared under `key`.
    pub open spec fn is_first_declared(&self, key: Seq<char>, i: int) -> bool {
        &&& 0 <= i < self.outputs@.len()
        &&& self.outputs@[i].key@ == key
        &&& forall|j: int| 0 <= j < i ==> self.outputs@[j].key@ != key
    }

    /// Whether some output is declared under `key`.
    pub open spec fn declares(&self, key: Seq<char>) -> bool {
        exists|i: int| 0 <= i < self.outputs@.len() && self.outputs@[i].key@ == key
    }

    /// Whether the key of the output at `i` was declared before it.
    pub open spec fn repeats_key(&self, i: int) -> bool {
        exists|j: int| 0 <= j < i && self.outputs@[j].key@ == self.outputs@[i].key@
    }

    /// What is wrong with the output at `i`, seen as part of the contract:
    /// a blank key, a key that an earlier output has, or a fault of its own.
    pub open spec fn output_fault(&self, i: int) -> Option<ContractFault> {
        let output = self.outputs@[i];
        if is_blank(output.key@) {
            Some(ContractFault::BlankKey)
        } else if self.repeats_key(i) {
            Some(ContractFault::DuplicateKey(output.key@))
        } else {
            match output.fault() {
                Some(fault) => Some(ContractFault::Definition(output.key@, fault)),
                None => None,
            }
        }
    }

    /// The fault of the first faulty output at or after `from`.
    pub open spec fn first_output_fault(&self, from: int) -> Option<ContractFault>
        decreases self.outputs@.len() - from,
    {
        if from < 0 || from >= self.outputs@.len() {
            None
        } else {
            match self.output_fault(from) {
                Some(fault) => Some(fault),
                None => self.first_output_fault(from + 1),
            }
        }
    }

    /// The first thing that is wrong with this contract, if anything is: the
    /// lens id, the absence of outputs, then the outputs in order.
    pub open spec fn fault(&self) -> Option<ContractFault> {
        if is_blank(self.lens_id@) {
            Some(ContractFault::BlankLensId)
        } else if self.outputs@.len() == 0 {
            Some(ContractFault::NoOutput)
        } else {
            self.first_output_fault(0)
        }
    }

    /// A contract is valid when nothing is wrong with it.
    pub open spec fn is_valid(&self) -> bool {
        self.fault() is None
    }

    /// What is wrong with a payload for the output `key`, if anything is.
    pub open spec fn payload_fault(&self, key: Seq<char>, payload: serde_json::Value) -> Option<
        PayloadFault,
    > {
        if !self.declares(key) {
            Some(PayloadFault::UndeclaredKey)
        } else {
            let i = choose|i: int| self.is_first_declared(key, i);
            let fields = self.outputs@[i].field_names();
            if fields.len() == 0 {
                None
            } else {
                match json_members(payload) {
                    None => Some(PayloadFault::NotAnObject),
                    Some(members) => match first_missing(fields, members.dom(), 0) {
                        Some(field) => Some(PayloadFault::MissingField(field)),
                        None => None,
                    },
                }
            }
        }
    }

    /// Return an output definition by key: the first one declared under it.
    pub fn get_output(&self, key: &str) -> (r: Option<&OutputDefinition>)
        ensures
            r is Some <==> self.declares(key@),
            r matches Some(output) ==> exists|i: int|
                self.is_first_declared(key@, i) && *output == self.outputs@[i],
    {
        let mut i: usize = 0;
        while i < self.outputs.len()
            invariant
                i <= self.outputs@.len(),
                forall|j: int| 0 <= j < i ==> self.outputs@[j].key@ != key@,
            decreases self.outputs@.len() - i,
        {
            if same_text(self.outputs[i].key.as_str(), key) {
                assert(self.is_first_declared(key@, i as int));
                return Some(&self.outputs[i]);
            }
            i += 1;
        }
        None
    }

    /// Whether the key of the output at `i` stands at an earlier output too.
    fn key_seen_before(&self, i: usize) -> (r: bool)
        requires
            i < self.outputs@.len(),
        ensures
            r == self.repeats_key(i as int),
    {
        let mut j: usize = 0;
        while j < i
            invariant
                j <= i < self.outputs@.len(),
                forall|k: int| 0 <= k < j ==> self.outputs@[k].key@ != self.outputs@[i as int].key@,
            decreases i - j,
        {
            if same_text(self.outputs[j].key.as_str(), self.outputs[i].key.as_str()) {
                return true;
            }
            j += 1;
        }
        false
    }

    /// Validate the constraints that hold of a contract as a whole: succeeds
    /// exactly when nothing is wrong with it, and reports the first fault
    /// otherwise.
    #[verifier::loop_isolation(false)]
    pub fn validate(&self) -> (r: Result<(), LensError>)
        ensures
            r is Ok <==> self.is_valid(),
            r matches Err(e) ==> self.fault() matches Some(fault) && is_invalid_input(
                e,
                contract_fault_message(self.lens_id@, fault),
            ),
    {
        if blank(self.lens_id.as_str()) {
            return Err(
                LensError::InvalidInput(String::from_str("lens.output.yaml: lens_id is required")),
            );
        }
        if self.outputs.len() == 0 {
            let mut message = String::from_str("lens.output.yaml for '");
            message.append(self.lens_id.as_str());
            message.append("' must declare at least one output");
            return Err(LensError::InvalidInput(message));
        }
        let mut i: usize = 0;
        while i < self.outputs.len()
            invariant
                i <= self.outputs@.len(),
                self.first_output_fault(0) == self.first_output_fault(i as int),
            decreases self.outputs@.len() - i,
        {
            let output = &self.outputs[i];
            if blank(output.key.as_str()) {
                let mut message = String::from_str("lens.output.yaml for '");
                message.append(self.lens_id.as_str());
                message.append("': output key cannot be empty");
                return Err(LensError::InvalidInput(message));
            }
            if self.key_seen_before(i) {
                let mut message = String::from_str("lens.output.yaml for '");
                message.append(self.lens_id.as_str());
                message.append("': duplicate output key '");
                message.append(output.key.as_str());
                message.append("'");
                return Err(LensError::InvalidInput(message));
            }
            match output.validate(self.lens_id.as_str()) {
                Err(e) => {
                    return Err(e);
                },
                Ok(()) => {},
            }
            i += 1;
        }
        Ok(())
    }

    /// Validate a runtime payload for a specific output key: the key has to
    /// be declared, and every field that its definition requires has to be a
    /// member of the payload. Only presence is checked.
    #[verifier::loop_isolation(false)]
    pub fn validate_payload(&self, key: &str, payload: &serde_json::Value) -> (r: Result<
        (),
        LensError,
    >)
        ensures
            r is Ok <==> self.payload_fault(key@, *payload) is None,
            r matches Err(e) ==> self.payload_fault(key@, *payload) matches Some(fault)
                && is_invalid_input(e, payload_fault_message(self.lens_id@, key@, fault)),
    {
        let output = match self.get_output(key) {
            Some(output) => output,
            None => {
                let mut message = String::from_str("Output key '");
                message.append(key);
                message.append("' is not declared in lens.output.yaml for '");
                message.append(self.lens_id.as_str());
                message.append("'");
                return Err(LensError::InvalidInput(message));
            },
        };
        proof {
            let chosen = choose|i: int| self.is_first_declared(key@, i);
            let found = choose|i: int| self.is_first_declared(key@, i) && *output == self.outputs@[i];
            assert(chosen == found) by {
                if chosen < found {
                    assert(self.outputs@[chosen].key@ != key@);
                } else if found < chosen {
                    assert(self.outputs@[found].key@ != key@);
                }
            }
        }
        if output.required_fields.len() == 0 {
            return Ok(());
        }
        let members = match as_object(payload) {
            Some(members) => members,
            None => {
                let mut message = String::from_str("Output '");
                message.append(key);
                message.append("' expects an object payload to validate required_fields");
                return Err(LensError::InvalidInput(message));
            },
        };
        let ghost present = map_entries(*members).dom();
        let mut f: usize = 0;
        while f < output.required_fields.len()
            invariant
                f <= output.required_fields@.len(),
                present == map_entries(*members).dom(),
                first_missing(output.field_names(), present, 0) == first_missing(
                    output.field_names(),
                    present,
                    f as int,
                ),
            decreases output.required_fields@.len() - f,
        {
            assert(output.field_names()[f as int] == output.required_fields@[f as int]@);
            if !contains_key(members, output.required_fields[f].as_str()) {
                let mut message = String::from_str("Output '");
                message.append(key);
                message.append("' missing required field '");
                message.append(output.required_fields[f].as_str());
                message.append("'");
                return Err(LensError::InvalidInput(message));
            }
            f += 1;
        }
        Ok(())
    }
}

/// What loading an output contract from the file at `path` comes to: the
/// contract where it was read, parsed and found valid, else the cause.
pub open spec fn output_spec_outcome(path: std::path::PathBuf, file: Loaded<LensOutputSpec>) -> Result<
    LensOutputSpec,
    Seq<char>,
> {
    match file {
        Loaded::Unreadable(cause) => Err(
            "Failed to read output spec "@ + path_debug_text(path) + ": "@ + cause@,
        ),
        Loaded::Malformed(cause) => Err("Failed to parse lens output spec YAML: "@ + cause@),
        Loaded::Parsed(spec) => match spec.fault() {
            Some(fault) => Err(contract_fault_message(spec.lens_id@, fault)),
            None => Ok(spec),
        },
    }
}

impl LensOutputSpec {
    /// Take an output contract from the outcome of parsing its YAML text:
    /// a text that did not parse is reported with its cause, and a contract
    /// that parsed is returned only if it is valid.
    pub fn from_yaml(parsed: Result<LensOutputSpec, String>) -> (r: Result<LensOutputSpec, LensError>)
        ensures
            (match parsed {
                Ok(spec) => match spec.fault() {
                    None => r == Ok::<LensOutputSpec, LensError>(spec),
                    Some(fault) => r matches Err(e) && is_invalid_input(
                        e,
                        contract_fault_message(spec.lens_id@, fault),
                    ),
                },
                Err(cause) => r matches Err(e) && is_invalid_input(
                    e,
                    "Failed to parse lens output spec YAML: "@ + cause@,
                ),
            }),
    {
        match parsed {
            Ok(spec) => match spec.validate() {
                Ok(()) => Ok(spec),
                Err(e) => Err(e),
            },
            Err(cause) => {
                let mut message = String::from_str("Failed to parse lens output spec YAML: ");
                message.append(cause.as_str());
                Err(LensError::InvalidInput(message))
            },
        }
    }

    /// Take an output contract from what the host read at `path`.
    pub fn from_file(path: &std::path::PathBuf, file: Loaded<LensOutputSpec>) -> (r: Result<
        LensOutputSpec,
        LensError,
    >)
        ensures
            (match output_spec_outcome(*path, file) {
                Ok(spec) => r == Ok::<LensOutputSpec, LensError>(spec),
                Err(message) => r matches Err(e) && is_invalid_input(e, message),
            }),
    {
        match file {
            Loaded::Unreadable(cause) => {
                let mut message = String::from_str("Failed to read output spec ");
                message.append(path_debug(path).as_str());
                message.append(": ");
                message.append(cause.as_str());
                Err(LensError::InvalidInput(message))
            },
            Loaded::Malformed(cause) => LensOutputSpec::from_yaml(Err(cause)),
            Loaded::Parsed(spec) => LensOutputSpec::from_yaml(Ok(spec)),
        }
    }

    /// Report the outcome of serializing a contract to YAML: the text, or the
    /// cause for which there is none.
    pub fn to_yaml(printed: Result<String, String>) -> (r: Result<String, LensError>)
        ensures
            (match printed {
                Ok(text) => r == Ok::<String, LensError>(text),
                Err(cause) => r matches Err(e) && is_invalid_input(
                    e,
                    "Failed to serialize output spec to YAML: "@ + cause@,
                ),
            }),
    {
        match printed {
            Ok(text) => Ok(text),
            Err(cause) => {
                let mut message = String::from_str("Failed to serialize output spec to YAML: ");
                message.append(cause.as_str());
                Err(LensError::InvalidInput(message))
            },
        }
    }
}

/// Where nothing is wrong with the outputs from `from` up to `i`, and
/// something is wrong with the one at `i`, that is the fault found from
/// `from` on.
pub proof fn lemma_first_output_fault(spec: LensOutputSpec, from: int, i: int)
    requires
        0 <= from <= i < spec.outputs@.len(),
        forall|k: int| from <= k < i ==> spec.output_fault(k) is None,
        spec.output_fault(i) is Some,
    ensures
        spec.first_output_fault(from) == spec.output_fault(i),
    decreases i - from,
{
    if from < i {
        lemma_first_output_fault(spec, from + 1, i);
    }
}

/// A faulty output makes the search from any earlier position find a fault.
pub proof fn lemma_some_output_fault(spec: LensOutputSpec, from: int, i: int)
    requires
        0 <= from <= i < spec.outputs@.len(),
        spec.output_fault(i) is Some,
    ensures
        spec.first_output_fault(from) is Some,
    decreases i - from,
{
    if from < i {
        lemma_some_output_fault(spec, from + 1, i);
    }
}

/// An output definition is rejected if it has no render block, if it has no
/// example, or if the name of one of its required fields is empty.
pub proof fn lemma_incomplete_definition_rejected(definition: OutputDefinition)
    requires
        definition.render_blocks@.len() == 0 || definition.examples@.len() == 0 || exists|i: int|
            0 <= i < definition.required_fields@.len() && definition.required_fields@[i]@.len() == 0,
    ensures
        definition.fault() is Some,
{
    if definition.render_blocks@.len() != 0 && definition.examples@.len() != 0 {
        let i = choose|i: int|
            0 <= i < definition.required_fields@.len() && definition.required_fields@[i]@.len() == 0;
        assert(is_blank(definition.required_fields@[i]@));
        assert(definition.has_blank_field());
    }
}

/// A contract that holds a faulty output definition is not valid.
pub proof fn lemma_faulty_definition_rejected(spec: LensOutputSpec, i: int)
    requires
        0 <= i < spec.outputs@.len(),
        spec.outputs@[i].fault() is Some,
    ensures
        !spec.is_valid(),
{
    lemma_some_output_fault(spec, 0, i);
}

/// A contract in which two outputs have the same key is not valid.
pub proof fn lemma_duplicate_key_rejected(spec: LensOutputSpec, i: int, j: int)
    requires
        0 <= j < i < spec.outputs@.len(),
        spec.outputs@[j].key@ == spec.outputs@[i].key@,
    ensures
        !spec.is_valid(),
{
    assert(spec.repeats_key(i));
    lemma_some_output_fault(spec, 0, i);
}

/// Where a key is repeated and nothing is wrong with the contract before the
/// repetition, the fault that is reported is the duplicate key, and its
/// message names the key.
pub proof fn lemma_duplicate_key_reported(spec: LensOutputSpec, i: int)
    requires
        !is_blank(spec.lens_id@),
        0 <= i < spec.outputs@.len(),
        forall|k: int| 0 <= k < i ==> spec.output_fault(k) is None,
        !is_blank(spec.outputs@[i].key@),
        spec.repeats_key(i),
    ensures
        spec.fault() == Some(ContractFault::DuplicateKey(spec.outputs@[i].key@)),
        contract_fault_message(spec.lens_id@, spec.fault().unwrap()) == "lens.output.yaml for '"@
            + spec.lens_id@ + "': duplicate output key '"@ + spec.outputs@[i].key@ + "'"@,
{
    lemma_first_output_fault(spec, 0, i);
}

/// A payload for a declared key is accepted exactly when every field that
/// the definition under that key requires is a member of the payload; where
/// one is missing, the fault names the first such field.
pub proof fn lemma_payload_accepted_iff_fields_present(
    spec: LensOutputSpec,
    key: Seq<char>,
    payload: serde_json::Value,
    i: int,
)
    requires
        spec.is_first_declared(key, i),
    ensures
        spec.payload_fault(key, payload) is None <==> forall|k: int|
            0 <= k < spec.outputs@[i].required_fields@.len() ==> json_has_member(
                payload,
                #[trigger] spec.outputs@[i].required_fields@[k]@,
            ),
        spec.payload_fault(key, payload) matches Some(PayloadFault::MissingField(field))
            ==> !json_has_member(payload, field) && exists|k: int|
            0 <= k < spec.outputs@[i].required_fields@.len()
                && spec.outputs@[i].required_fields@[k]@ == field,
        spec.payload_fault(key, payload) != Some(PayloadFault::UndeclaredKey),
{
    let chosen = choose|c: int| spec.is_first_declared(key, c);
    assert(chosen == i) by {
        if chosen < i {
            assert(spec.outputs@[chosen].key@ != key);
        } else if i < chosen {
            assert(spec.outputs@[i].key@ != key);
        }
    }
    let output = spec.outputs@[i];
    let fields = output.field_names();
    assert(forall|k: int| 0 <= k < fields.len() ==> fields[k] == output.required_fields@[k]@);
    match json_members(payload) {
        None => {
            if fields.len() > 0 {
                assert(!json_has_member(payload, output.required_fields@[0]@));
            }
        },
        Some(members) => {
            lemma_first_missing(fields, members.dom(), 0);
            assert forall|k: int| 0 <= k < fields.len() implies (members.dom().contains(fields[k])
                <==> json_has_member(payload, #[trigger] output.required_fields@[k]@)) by {}
            if first_missing(fields, members.dom(), 0) is None {
                assert forall|k: int| 0 <= k < output.required_fields@.len() implies json_has_member(
                    payload,
                    #[trigger] output.required_fields@[k]@,
                ) by {
                    assert(members.dom().contains(fields[k]));
                }
            } else {
                let field = first_missing(fields, members.dom(), 0).unwrap();
                let k = choose|k: int| 0 <= k < fields.len() && fields[k] == field;
                assert(!json_has_member(payload, output.required_fields@[k]@));
            }
        },
    }
}

/// A payload for a key that the contract does not declare is rejected as
/// such, whatever it holds.
pub proof fn lemma_undeclared_key_rejected(
    spec: LensOutputSpec,
    key: Seq<char>,
    payload: serde_json::Value,
)
    requires
        !spec.declares(key),
    ensures
        spec.payload_fault(key, payload) == Some(PayloadFault::UndeclaredKey),
{
}

/// In a valid contract the lens id is not blank, there is an output, no two
/// outputs share a key, no key is blank, and nothing is wrong with any
/// output definition.
pub proof fn lemma_valid_contract(spec: LensOutputSpec)
    requires
        spec.is_valid(),
    ensures
        !is_blank(spec.lens_id@),
        spec.outputs@.len() > 0,
        forall|i: int|
            0 <= i < spec.outputs@.len() ==> !is_blank((#[trigger] spec.outputs@[i]).key@)
                && spec.outputs@[i].fault() is None,
        forall|i: int, j: int|
            0 <= j < i < spec.outputs@.len() ==> spec.outputs@[j].key@ != spec.outputs@[i].key@,
{
    assert forall|i: int| 0 <= i < spec.outputs@.len() implies spec.output_fault(i) is None by {
        if spec.output_fault(i) is Some {
            lemma_some_output_fault(spec, 0, i);
        }
    }
    assert forall|i: int, j: int| 0 <= j < i < spec.outputs@.len() implies spec.outputs@[j].key@
        != spec.outputs@[i].key@ by {
        assert(spec.output_fault(i) is None);
        if spec.outputs@[j].key@ == spec.outputs@[i].key@ {
            assert(spec.repeats_key(i));
        }
    }
    assert forall|i: int| 0 <= i < spec.outputs@.len() implies !is_blank(
        (#[trigger] spec.outputs@[i]).key@,
    ) && spec.outputs@[i].fault() is None by {
        assert(spec.output_fault(i) is None);
    }
}

/// A definition with nothing wrong has a title that is not blank, a render
/// block, an example, no required field with a blank name, no error mode
/// with a blank code or message, and, where its payload schema declares
/// properties, every required field among them.
pub proof fn lemma_faultless_definition(definition: OutputDefinition)
    requires
        definition.fault() is None,
    ensures
        !is_blank(definition.title@),
        definition.render_blocks@.len() > 0,
        definition.examples@.len() > 0,
        forall|i: int|
            0 <= i < definition.required_fields@.len() ==> !is_blank(
                #[trigger] definition.required_fields@[i]@,
            ),
        forall|i: int|
            0 <= i < definition.error_modes@.len() ==> !is_blank(
                (#[trigger] definition.error_modes@[i]).code@,
            ) && !is_blank(definition.error_modes@[i].message@),
        declared_properties(definition.payload_schema) matches Some(properties) ==> forall|i: int|
            0 <= i < definition.required_fields@.len() ==> properties.contains_key(
                #[trigger] definition.required_fields@[i]@,
            ),
{
    assert forall|i: int| 0 <= i < definition.required_fields@.len() implies !is_blank(
        #[trigger] definition.required_fields@[i]@,
    ) by {
        if is_blank(definition.required_fields@[i]@) {
            assert(definition.has_blank_field());
        }
    }
    assert forall|i: int| 0 <= i < definition.error_modes@.len() implies !is_blank(
        (#[trigger] definition.error_modes@[i]).code@,
    ) && !is_blank(definition.error_modes@[i].message@) by {
        if is_blank(definition.error_modes@[i].code@) || is_blank(
            definition.error_modes@[i].message@,
        ) {
            assert(definition.has_invalid_error_mode());
        }
    }
    if let Some(properties) = declared_properties(definition.payload_schema) {
        let fields = definition.field_names();
        lemma_first_missing(fields, properties.dom(), 0);
        assert forall|i: int| 0 <= i < definition.required_fields@.len() implies properties.contains_key(
            #[trigger] definition.required_fields@[i]@,
        ) by {
            assert(fields[i] == definition.required_fields@[i]@);
            assert(properties.dom().contains(fields[i]));
        }
    }
}

} // verus!
