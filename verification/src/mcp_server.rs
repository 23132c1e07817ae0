//! The tools that a lens exposes to agents over the Model Context Protocol:
//! how a tool and its input schema are described, and how the outcome of a
//! call is reported.

use vstd::prelude::*;
use crate::error::LensError;
use crate::json::{
    error_text, json_error_is_io, json_error_text, json_pretty_text, to_string_pretty,
};
use crate::text::{join2, same_text};

verus! {

/// MCP tool definition that agents can call.
#[derive(Debug, Clone)]
pub struct McpTool {
    /// Tool name.
    pub name: String,
    /// Human-readable description of what the tool does.
    pub description: String,
    /// JSON Schema for tool input parameters.
    pub input_schema: McpToolSchema,
}

/// JSON Schema for MCP tool inputs.
#[derive(Debug, Clone)]
pub struct McpToolSchema {
    /// Schema type (always "object" for MCP tools).
    pub schema_type: String,
    /// Property definitions.
    pub properties: PropertyMap,
    /// Required property names.
    pub required: Vec<String>,
}

/// Schema for a single property.
#[derive(Debug)]
pub struct McpPropertySchema {
    /// Property type ("string", "number", "boolean", "object", "array").
    pub prop_type: String,
    /// Property description.
    pub description: String,
    /// Default value (if any).
    pub default: Option<serde_json::Value>,
    /// Enum values (for string enums).
    pub enum_values: Option<Vec<String>>,
    /// Items schema (for arrays).
    pub items: Option<Box<McpPropertySchema>>,
}

/// What a property schema holds, as plain values.
pub struct PropertySchemaView {
    pub prop_type: Seq<char>,
    pub description: Seq<char>,
    pub default: Option<serde_json::Value>,
    pub enum_values: Option<Seq<Seq<char>>>,
    pub items: Option<Box<PropertySchemaView>>,
}

/// What a property schema holds, as plain values.
pub open spec fn schema_view(schema: McpPropertySchema) -> PropertySchemaView
    decreases schema,
{
    PropertySchemaView {
        prop_type: schema.prop_type@,
        description: schema.description@,
        default: schema.default,
        enum_values: match schema.enum_values {
            Some(values) => Some(values@.map_values(|s: String| s@)),
            None => None,
        },
        items: match schema.items {
            Some(inner) => Some(Box::new(schema_view(*inner))),
            None => None,
        },
    }
}

impl McpPropertySchema {
    /// A copy of the schema, with the schema of its items copied in turn.
    pub fn duplicate(&self) -> (r: Self)
        ensures
            r@ == self@,
        decreases self,
    {
        let r = McpPropertySchema {
            prop_type: self.prop_type.clone(),
            description: self.description.clone(),
            default: self.default.clone(),
            enum_values: self.enum_values.clone(),
            items: match &self.items {
                Some(inner) => Some(Box::new(inner.duplicate())),
                None => None,
            },
        };
        proof {
            if self.enum_values is Some {
                let values = self.enum_values->0;
                let copied = r.enum_values->0;
                assert(copied@.map_values(|s: String| s@) =~= values@.map_values(|s: String| s@));
            }
        }
        r
    }
}

impl Clone for McpPropertySchema {
    fn clone(&self) -> (r: Self)
        ensures
            r@ == self@,
    {
        self.duplicate()
    }
}

impl View for McpPropertySchema {
    type V = PropertySchemaView;

    open spec fn view(&self) -> PropertySchemaView {
        schema_view(*self)
    }
}

/// A property of a kind, with a description and nothing else.
pub open spec fn plain_property(kind: Seq<char>, description: Seq<char>) -> PropertySchemaView {
    PropertySchemaView {
        prop_type: kind,
        description,
        default: None,
        enum_values: None,
        items: None,
    }
}

/// A string property that takes one of the given values.
pub open spec fn enum_property(description: Seq<char>, values: Seq<Seq<char>>) -> PropertySchemaView {
    PropertySchemaView {
        prop_type: "string"@,
        description,
        default: None,
        enum_values: Some(values),
        items: None,
    }
}

/// One property of a tool's input: its name and its schema.
#[derive(Debug, Clone)]
pub struct PropertyEntry {
    pub name: String,
    pub schema: McpPropertySchema,
}

/// The properties of a tool's input, by name. A name stands for one
/// property: defining it again replaces the earlier definition.
#[derive(Debug)]
pub struct PropertyMap {
    entries: Vec<PropertyEntry>,
}

/// The map that a list of entries stands for, later entries winning.
pub open spec fn map_of(entries: Seq<PropertyEntry>) -> Map<Seq<char>, PropertySchemaView>
    decreases entries.len(),
{
    if entries.len() == 0 {
        Map::empty()
    } else {
        map_of(entries.drop_last()).insert(entries.last().name@, entries.last().schema@)
    }
}

/// No two entries have the same name.
pub open spec fn distinct_names(entries: Seq<PropertyEntry>) -> bool {
    forall|i: int, j: int| 0 <= i < j < entries.len() ==> entries[i].name@ != entries[j].name@
}

/// The names in the map of a list are the names of its entries.
pub proof fn lemma_map_of_names(entries: Seq<PropertyEntry>, name: Seq<char>)
    ensures
        map_of(entries).contains_key(name) <==> exists|i: int|
            0 <= i < entries.len() && entries[i].name@ == name,
        map_of(entries).dom().finite(),
    decreases entries.len(),
{
    if entries.len() > 0 {
        let rest = entries.drop_last();
        lemma_map_of_names(rest, name);
        if map_of(entries).contains_key(name) {
            if entries.last().name@ == name {
                assert(entries[entries.len() - 1].name@ == name);
            } else {
                let i = choose|i: int| 0 <= i < rest.len() && rest[i].name@ == name;
                assert(entries[i].name@ == name);
            }
        }
        if exists|i: int| 0 <= i < entries.len() && entries[i].name@ == name {
            let i = choose|i: int| 0 <= i < entries.len() && entries[i].name@ == name;
            if i < entries.len() - 1 {
                assert(rest[i].name@ == name);
            }
        }
    }
}

/// Where the names are distinct, each entry is what the map holds under its
/// name, and the map has as many names as the list has entries.
pub proof fn lemma_map_of_distinct(entries: Seq<PropertyEntry>)
    requires
        distinct_names(entries),
    ensures
        forall|i: int|
            0 <= i < entries.len() ==> map_of(entries).contains_key(#[trigger] entries[i].name@)
                && map_of(entries)[entries[i].name@] == entries[i].schema@,
        map_of(entries).dom().finite(),
        map_of(entries).dom().len() == entries.len(),
    decreases entries.len(),
{
    if entries.len() > 0 {
        let rest = entries.drop_last();
        let last = entries.last();
        assert(distinct_names(rest)) by {
            assert forall|i: int, j: int| 0 <= i < j < rest.len() implies rest[i].name@
                != rest[j].name@ by {
                assert(entries[i].name@ != entries[j].name@);
            }
        }
        lemma_map_of_distinct(rest);
        lemma_map_of_names(rest, last.name@);
        assert(!map_of(rest).contains_key(last.name@)) by {
            if exists|i: int| 0 <= i < rest.len() && rest[i].name@ == last.name@ {
                let i = choose|i: int| 0 <= i < rest.len() && rest[i].name@ == last.name@;
                assert(entries[i].name@ != entries[entries.len() - 1].name@);
            }
        }
        assert(map_of(entries).dom() =~= map_of(rest).dom().insert(last.name@));
        assert forall|i: int| 0 <= i < entries.len() implies map_of(entries).contains_key(
            #[trigger] entries[i].name@,
        ) && map_of(entries)[entries[i].name@] == entries[i].schema@ by {
            if i < entries.len() - 1 {
                assert(rest[i] == entries[i]);
                assert(entries[i].name@ != entries[entries.len() - 1].name@);
            }
        }
    }
}

/// Replacing the schema of an entry, in a list of distinct names, replaces
/// what the map holds under its name.
pub proof fn lemma_map_of_update(entries: Seq<PropertyEntry>, i: int, entry: PropertyEntry)
    requires
        distinct_names(entries),
        0 <= i < entries.len(),
        entries[i].name@ == entry.name@,
    ensures
        distinct_names(entries.update(i, entry)),
        map_of(entries.update(i, entry)) == map_of(entries).insert(entry.name@, entry.schema@),
    decreases entries.len(),
{
    let updated = entries.update(i, entry);
    assert(distinct_names(updated)) by {
        assert forall|a: int, b: int| 0 <= a < b < updated.len() implies updated[a].name@
            != updated[b].name@ by {
            assert(entries[a].name@ != entries[b].name@);
        }
    }
    let rest = entries.drop_last();
    if i == entries.len() - 1 {
        assert(updated.drop_last() =~= rest);
        assert(map_of(updated) =~= map_of(entries).insert(entry.name@, entry.schema@));
    } else {
        assert(distinct_names(rest)) by {
            assert forall|a: int, b: int| 0 <= a < b < rest.len() implies rest[a].name@
                != rest[b].name@ by {
                assert(entries[a].name@ != entries[b].name@);
            }
        }
        lemma_map_of_update(rest, i, entry);
        assert(updated.drop_last() =~= rest.update(i, entry));
        assert(updated.last() == entries.last());
        assert(entries[i].name@ != entries[entries.len() - 1].name@);
        assert(map_of(updated) =~= map_of(entries).insert(entry.name@, entry.schema@));
    }
}

impl Clone for PropertyMap {
    fn clone(&self) -> (r: Self)
        ensures
            r@ == self@,
    {
        let mut out = PropertyMap::new();
        let mut i: usize = 0;
        while i < self.entries.len()
            invariant
                i <= self.entries@.len(),
                out@ == map_of(self.entries@.take(i as int)),
            decreases self.entries@.len() - i,
        {
            let entry = &self.entries[i];
            assert(self.entries@.take(i + 1).drop_last() =~= self.entries@.take(i as int));
            out.insert(entry.name.clone(), entry.schema.duplicate());
            i += 1;
        }
        assert(self.entries@.take(i as int) =~= self.entries@);
        out
    }
}

impl View for PropertyMap {
    type V = Map<Seq<char>, PropertySchemaView>;

    closed spec fn view(&self) -> Map<Seq<char>, PropertySchemaView> {
        map_of(self.entries@)
    }
}

impl PropertyMap {
    /// The entries, in the order in which their names were first defined.
    pub closed spec fn listing(&self) -> Seq<PropertyEntry> {
        self.entries@
    }

    #[verifier::type_invariant]
    closed spec fn has_distinct_names(&self) -> bool {
        distinct_names(self.entries@)
    }

    /// A map without properties.
    pub fn new() -> (r: Self)
        ensures
            r@ == Map::<Seq<char>, PropertySchemaView>::empty(),
            r.listing().len() == 0,
    {
        PropertyMap { entries: Vec::new() }
    }

    /// The number of properties.
    pub fn len(&self) -> (r: usize)
        ensures
            r == self@.dom().len(),
            r == self.listing().len(),
    {
        proof {
            use_type_invariant(self);
            lemma_map_of_distinct(self.entries@);
        }
        self.entries.len()
    }

    /// Whether there is no property.
    pub fn is_empty(&self) -> (r: bool)
        ensures
            r == (self@.dom().len() == 0),
    {
        self.len() == 0
    }

    /// The position of the entry of that name, if there is one.
    fn position(&self, name: &str) -> (r: Option<usize>)
        ensures
            (match r {
                Some(i) => i < self.listing().len() && self.listing()[i as int].name@ == name@,
                None => forall|i: int|
                    0 <= i < self.listing().len() ==> self.listing()[i].name@ != name@,
            }),
    {
        let mut i: usize = 0;
        while i < self.entries.len()
            invariant
                i <= self.entries@.len(),
                forall|j: int| 0 <= j < i ==> self.entries@[j].name@ != name@,
            decreases self.entries@.len() - i,
        {
            if same_text(self.entries[i].name.as_str(), name) {
                return Some(i);
            }
            i += 1;
        }
        None
    }

    /// Whether a property of that name is defined.
    pub fn contains_key(&self, name: &str) -> (r: bool)
        ensures
            r == self@.contains_key(name@),
    {
        proof {
            lemma_map_of_names(self.entries@, name@);
        }
        self.position(name).is_some()
    }

    /// The schema of the property of that name, if one is defined.
    pub fn get(&self, name: &str) -> (r: Option<&McpPropertySchema>)
        ensures
            r is Some <==> self@.contains_key(name@),
            r matches Some(schema) ==> schema@ == self@[name@],
    {
        proof {
            use_type_invariant(self);
            lemma_map_of_names(self.entries@, name@);
            lemma_map_of_distinct(self.entries@);
        }
        match self.position(name) {
            Some(i) => Some(&self.entries[i].schema),
            None => None,
        }
    }

    /// The entries, one for each name, in the order in which the names were
    /// first defined. The map is what they stand for.
    pub fn entries(&self) -> (r: &Vec<PropertyEntry>)
        ensures
            r@ == self.listing(),
            distinct_names(r@),
            self@ == map_of(r@),
            r@.len() == self@.dom().len(),
    {
        proof {
            use_type_invariant(self);
            lemma_map_of_distinct(self.entries@);
        }
        &self.entries
    }

    /// Define the property of a name, in place of any earlier definition.
    pub fn insert(&mut self, name: String, schema: McpPropertySchema)
        ensures
            final(self)@ == old(self)@.insert(name@, schema@),
    {
        let found = self.position(name.as_str());
        let mut taken = PropertyMap::new();
        core::mem::swap(self, &mut taken);
        proof {
            use_type_invariant(&taken);
        }
        let PropertyMap { entries } = taken;
        let mut entries = entries;
        let ghost before = entries@;
        let entry = PropertyEntry { name, schema };
        match found {
            Some(i) => {
                proof {
                    lemma_map_of_update(before, i as int, entry);
                }
                entries.set(i, entry);
            },
            None => {
                entries.push(entry);
                proof {
                    assert(entries@.drop_last() =~= before);
                    assert(distinct_names(entries@)) by {
                        assert forall|a: int, b: int| 0 <= a < b < entries@.len() implies entries@[a].name@
                            != entries@[b].name@ by {
                            if b < before.len() {
                                assert(before[a].name@ != before[b].name@);
                            } else {
                                assert(before[a].name@ != name@);
                            }
                        }
                    }
                }
            },
        }
        *self = PropertyMap { entries };
    }
}

/// What a tool schema holds, as plain values.
pub struct McpToolSchemaView {
    pub schema_type: Seq<char>,
    pub properties: Map<Seq<char>, PropertySchemaView>,
    pub required: Seq<Seq<char>>,
}

impl View for McpToolSchema {
    type V = McpToolSchemaView;

    open spec fn view(&self) -> McpToolSchemaView {
        McpToolSchemaView {
            schema_type: self.schema_type@,
            properties: self.properties@,
            required: self.required@.map_values(|s: String| s@),
        }
    }
}

/// What a tool definition holds, as plain values.
pub struct McpToolView {
    pub name: Seq<char>,
    pub description: Seq<char>,
    pub input_schema: McpToolSchemaView,
}

impl View for McpTool {
    type V = McpToolView;

    open spec fn view(&self) -> McpToolView {
        McpToolView {
            name: self.name@,
            description: self.description@,
            input_schema: self.input_schema@,
        }
    }
}

/// Builder for creating MCP tools with a fluent API.
pub struct McpToolBuilder {
    name: String,
    description: String,
    properties: PropertyMap,
    required: Vec<String>,
}

impl View for McpToolBuilder {
    type V = McpToolView;

    /// The tool that the builder would build.
    closed spec fn view(&self) -> McpToolView {
        McpToolView {
            name: self.name@,
            description: self.description@,
            input_schema: McpToolSchemaView {
                schema_type: "object"@,
                properties: self.properties@,
                required: self.required@.map_values(|s: String| s@),
            },
        }
    }
}

/// A tool with one more property, or with the property of that name
/// redefined.
pub open spec fn with_property(tool: McpToolView, name: Seq<char>, schema: PropertySchemaView) -> McpToolView {
    McpToolView {
        name: tool.name,
        description: tool.description,
        input_schema: McpToolSchemaView {
            schema_type: tool.input_schema.schema_type,
            properties: tool.input_schema.properties.insert(name, schema),
            required: tool.input_schema.required,
        },
    }
}

/// A tool with one more name among the required ones.
pub open spec fn with_required(tool: McpToolView, name: Seq<char>) -> McpToolView {
    McpToolView {
        name: tool.name,
        description: tool.description,
        input_schema: McpToolSchemaView {
            schema_type: tool.input_schema.schema_type,
            properties: tool.input_schema.properties,
            required: tool.input_schema.required.push(name),
        },
    }
}

/// A property of a kind, with a description and nothing else.
fn plain(kind: &str, description: &str) -> (r: McpPropertySchema)
    ensures
        r@ == plain_property(kind@, description@),
{
    McpPropertySchema {
        prop_type: String::from_str(kind),
        description: String::from_str(description),
        default: None,
        enum_values: None,
        items: None,
    }
}

impl McpToolBuilder {
    /// Create a new tool builder: a tool of that name, without description,
    /// properties or required names.
    pub fn new(name: &str) -> (r: Self)
        ensures
            r@ == (McpToolView {
                name: name@,
                description: Seq::<char>::empty(),
                input_schema: McpToolSchemaView {
                    schema_type: "object"@,
                    properties: Map::<Seq<char>, PropertySchemaView>::empty(),
                    required: Seq::<Seq<char>>::empty(),
                },
            }),
    {
        let r = McpToolBuilder {
            name: String::from_str(name),
            description: String::new(),
            properties: PropertyMap::new(),
            required: Vec::new(),
        };
        assert(r.required@.map_values(|s: String| s@) =~= Seq::<Seq<char>>::empty());
        r
    }

    /// Set the tool description.
    pub fn description(self, desc: &str) -> (r: Self)
        ensures
            r@ == (McpToolView {
                name: self@.name,
                description: desc@,
                input_schema: self@.input_schema,
            }),
    {
        let mut this = self;
        this.description = String::from_str(desc);
        this
    }

    /// Add a string parameter.
    pub fn string_param(self, name: &str, desc: &str) -> (r: Self)
        ensures
            r@ == with_property(self@, name@, plain_property("string"@, desc@)),
    {
        let mut this = self;
        this.properties.insert(String::from_str(name), plain("string", desc));
        this
    }

    /// Add a required string parameter.
    pub fn string_param_required(self, name: &str, desc: &str) -> (r: Self)
        ensures
            r@ == with_required(
                with_property(self@, name@, plain_property("string"@, desc@)),
                name@,
            ),
    {
        let mut this = self;
        let ghost before = this.required@.map_values(|s: String| s@);
        this.properties.insert(String::from_str(name), plain("string", desc));
        this.required.push(String::from_str(name));
        assert(this.required@.map_values(|s: String| s@) =~= before.push(name@));
        this
    }

    /// Add a number parameter.
    pub fn number_param(self, name: &str, desc: &str) -> (r: Self)
        ensures
            r@ == with_property(self@, name@, plain_property("number"@, desc@)),
    {
        let mut this = self;
        this.properties.insert(String::from_str(name), plain("number", desc));
        this
    }

    /// Add a boolean parameter.
    pub fn bool_param(self, name: &str, desc: &str) -> (r: Self)
        ensures
            r@ == with_property(self@, name@, plain_property("boolean"@, desc@)),
    {
        let mut this = self;
        this.properties.insert(String::from_str(name), plain("boolean", desc));
        this
    }

    /// Add an object parameter.
    pub fn object_param(self, name: &str, desc: &str) -> (r: Self)
        ensures
            r@ == with_property(self@, name@, plain_property("object"@, desc@)),
    {
        let mut this = self;
        this.properties.insert(String::from_str(name), plain("object", desc));
        this
    }

    /// Add a string enum parameter.
    pub fn enum_param(self, name: &str, desc: &str, values: Vec<String>) -> (r: Self)
        ensures
            r@ == with_property(
                self@,
                name@,
                enum_property(desc@, values@.map_values(|s: String| s@)),
            ),
    {
        let mut this = self;
        let schema = McpPropertySchema {
            prop_type: String::from_str("string"),
            description: String::from_str(desc),
            default: None,
            enum_values: Some(values),
            items: None,
        };
        this.properties.insert(String::from_str(name), schema);
        this
    }

    /// Mark a parameter as required.
    pub fn required(self, name: &str) -> (r: Self)
        ensures
            r@ == with_required(self@, name@),
    {
        let mut this = self;
        let ghost before = this.required@.map_values(|s: String| s@);
        this.required.push(String::from_str(name));
        assert(this.required@.map_values(|s: String| s@) =~= before.push(name@));
        this
    }

    /// Build the MCP tool.
    pub fn build(self) -> (r: McpTool)
        ensures
            r@ == self@,
    {
        McpTool {
            name: self.name,
            description: self.description,
            input_schema: McpToolSchema {
                schema_type: String::from_str("object"),
                properties: self.properties,
                required: self.required,
            },
        }
    }
}

impl McpTool {
    /// Create a new tool builder.
    pub fn builder(name: &str) -> (r: McpToolBuilder)
        ensures
            r@ == (McpToolView {
                name: name@,
                description: Seq::<char>::empty(),
                input_schema: McpToolSchemaView {
                    schema_type: "object"@,
                    properties: Map::<Seq<char>, PropertySchemaView>::empty(),
                    required: Seq::<Seq<char>>::empty(),
                },
            }),
    {
        McpToolBuilder::new(name)
    }
}

/// MCP tool call response.
#[derive(Debug, Clone)]
pub struct McpToolResponse {
    /// Response content.
    pub content: Vec<McpContent>,
    /// Whether this is an error response.
    pub is_error: bool,
}

/// MCP content block.
#[derive(Debug, Clone)]
pub enum McpContent {
    /// Text content.
    Text { text: String },
    /// Image content (base64).
    Image { data: String, mime_type: String },
    /// Resource reference.
    Resource { uri: String, text: Option<String> },
}

/// What a content block holds, as plain values.
pub enum McpContentView {
    Text { text: Seq<char> },
    Image { data: Seq<char>, mime_type: Seq<char> },
    Resource { uri: Seq<char>, text: Option<Seq<char>> },
}

impl View for McpContent {
    type V = McpContentView;

    open spec fn view(&self) -> McpContentView {
        match self {
            McpContent::Text { text } => McpContentView::Text { text: text@ },
            McpContent::Image { data, mime_type } => McpContentView::Image {
                data: data@,
                mime_type: mime_type@,
            },
            McpContent::Resource { uri, text } => McpContentView::Resource {
                uri: uri@,
                text: match text {
                    Some(t) => Some(t@),
                    None => None,
                },
            },
        }
    }
}

/// What a response holds, as plain values.
pub struct McpToolResponseView {
    pub content: Seq<McpContentView>,
    pub is_error: bool,
}

impl View for McpToolResponse {
    type V = McpToolResponseView;

    open spec fn view(&self) -> McpToolResponseView {
        McpToolResponseView {
            content: self.content@.map_values(|c: McpContent| c@),
            is_error: self.is_error,
        }
    }
}

/// A response of one text block.
pub open spec fn text_response(text: Seq<char>, is_error: bool) -> McpToolResponseView {
    McpToolResponseView { content: seq![McpContentView::Text { text }], is_error }
}

impl McpToolResponse {
    /// A response of one text block.
    fn of_text(text: String, is_error: bool) -> (r: Self)
        ensures
            r@ == text_response(text@, is_error),
    {
        let mut content: Vec<McpContent> = Vec::new();
        content.push(McpContent::Text { text });
        let r = McpToolResponse { content, is_error };
        assert(r@.content =~= seq![McpContentView::Text { text: text@ }]);
        r
    }

    /// Create a text response.
    pub fn text(content: &str) -> (r: Self)
        ensures
            r@ == text_response(content@, false),
    {
        McpToolResponse::of_text(String::from_str(content), false)
    }

    /// Create a response from the outcome of printing a value as JSON: the
    /// text as a text response, or the serializer's error, with its text
    /// where that is the error's own.
    pub fn from_printed(printed: Result<String, serde_json::Error>) -> (r: Result<Self, LensError>)
        ensures
            (match printed {
                Ok(text) => r matches Ok(response) && response@ == text_response(text@, false),
                Err(e) => r matches Err(LensError::Other(m)) && (!json_error_is_io(e) ==> m@
                    == json_error_text(e)),
            }),
    {
        match printed {
            Ok(text) => Ok(McpToolResponse::of_text(text, false)),
            Err(e) => Err(LensError::Other(error_text(&e))),
        }
    }

    /// Create a JSON response: the value, pretty-printed, as a text response.
    pub fn json(value: &serde_json::Value) -> (r: Result<Self, LensError>)
        ensures
            (match json_pretty_text(*value) {
                Some(text) => r matches Ok(response) && response@ == text_response(text, false),
                None => r matches Err(LensError::Other(_)),
            }),
    {
        McpToolResponse::from_printed(to_string_pretty(value))
    }

    /// Create an error response.
    pub fn error(message: &str) -> (r: Self)
        ensures
            r@ == text_response(message@, true),
    {
        McpToolResponse::of_text(String::from_str(message), true)
    }
}

/// The name of the MCP server of a lens.
pub fn mcp_server_name(lens_id: &str) -> (r: String)
    ensures
        r@ == "graphyn-"@ + lens_id@,
{
    join2("graphyn-", lens_id)
}

/// The version of the MCP server of a lens: the version of the lens.
pub fn mcp_server_version(lens_version: &str) -> (r: String)
    ensures
        r@ == lens_version@,
{
    String::from_str(lens_version)
}

} // verus!
