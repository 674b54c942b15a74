use vstd::prelude::*;

verus! {

/// A position in a text document as a language server counts it: a line and
/// a character offset within it, both from zero.
#[derive(Clone, Copy, Debug, PartialEq, Eq, Structural)]
pub struct LspPosition {
    pub line: u32,
    pub character: u32,
}

/// A span of a text document, from `start` up to (not including) `end`.
#[derive(Clone, Copy, Debug, PartialEq, Eq, Structural)]
pub struct LspRange {
    pub start: LspPosition,
    pub end: LspPosition,
}

/// A replacement of a span of the document by new text.
#[derive(Clone, Debug)]
pub struct TextEdit {
    pub range: LspRange,
    pub new_text: String,
}

/// What a text edit stands for: its span and the characters of its text.
pub struct TextEditView {
    pub range: LspRange,
    pub new_text: Seq<char>,
}

impl View for TextEdit {
    type V = TextEditView;

    open spec fn view(&self) -> TextEditView {
        TextEditView { range: self.range, new_text: self.new_text@ }
    }
}

/// An edit that a client may apply either by inserting or by replacing.
#[derive(Clone, Debug)]
pub struct InsertReplaceEdit {
    pub new_text: String,
    pub insert: LspRange,
    pub replace: LspRange,
}

/// How a completion item changes the document, where the server says so.
#[derive(Clone, Debug)]
pub enum CompletionTextEdit {
    Edit(TextEdit),
    InsertAndReplace(InsertReplaceEdit),
}

/// The format of documentation text.
#[derive(Clone, Copy, Debug, PartialEq, Eq, Structural)]
pub enum MarkupKind {
    PlainText,
    Markdown,
}

/// Documentation text with its format.
#[derive(Clone, Debug)]
pub struct MarkupContent {
    pub kind: MarkupKind,
    pub value: String,
}

/// The documentation of a completion item.
#[derive(Clone, Debug)]
pub enum Documentation {
    String(String),
    MarkupContent(MarkupContent),
}

/// One proposal of a completion list, as a language server sends it. `kind`
/// is the protocol's number for the kind of item (1 for text up to 25 for a
/// type parameter).
#[derive(Clone, Debug)]
pub struct CompletionItem {
    pub label: String,
    pub kind: Option<i32>,
    pub detail: Option<String>,
    pub documentation: Option<Documentation>,
    pub filter_text: Option<String>,
    pub insert_text: Option<String>,
    pub text_edit: Option<CompletionTextEdit>,
    pub additional_text_edits: Option<Vec<TextEdit>>,
}

/// Whether `kind` is no kind or one of the kinds the protocol defines.
pub open spec fn known_kind(kind: Option<i32>) -> bool {
    match kind {
        None => true,
        Some(k) => 1 <= k <= 25,
    }
}

/// The name shown for a kind of item; the empty name for no kind.
pub open spec fn kind_name(kind: Option<i32>) -> Seq<char> {
    match kind {
        Some(1) => "text"@,
        Some(2) => "method"@,
        Some(3) => "function"@,
        Some(4) => "constructor"@,
        Some(5) => "field"@,
        Some(6) => "variable"@,
        Some(7) => "class"@,
        Some(8) => "interface"@,
        Some(9) => "module"@,
        Some(10) => "property"@,
        Some(11) => "unit"@,
        Some(12) => "value"@,
        Some(13) => "enum"@,
        Some(14) => "keyword"@,
        Some(15) => "snippet"@,
        Some(16) => "color"@,
        Some(17) => "file"@,
        Some(18) => "reference"@,
        Some(19) => "folder"@,
        Some(20) => "enum_member"@,
        Some(21) => "constant"@,
        Some(22) => "struct"@,
        Some(23) => "event"@,
        Some(24) => "operator"@,
        Some(25) => "type_param"@,
        _ => ""@,
    }
}

/// The name shown for a kind of item, as `kind_name` gives it.
pub fn kind_label(kind: Option<i32>) -> (r: &'static str)
    requires
        known_kind(kind),
    ensures
        r@ == kind_name(kind),
{
    match kind {
        Some(1) => "text",
        Some(2) => "method",
        Some(3) => "function",
        Some(4) => "constructor",
        Some(5) => "field",
        Some(6) => "variable",
        Some(7) => "class",
        Some(8) => "interface",
        Some(9) => "module",
        Some(10) => "property",
        Some(11) => "unit",
        Some(12) => "value",
        Some(13) => "enum",
        Some(14) => "keyword",
        Some(15) => "snippet",
        Some(16) => "color",
        Some(17) => "file",
        Some(18) => "reference",
        Some(19) => "folder",
        Some(20) => "enum_member",
        Some(21) => "constant",
        Some(22) => "struct",
        Some(23) => "event",
        Some(24) => "operator",
        Some(25) => "type_param",
        _ => "",
    }
}

impl CompletionItem {
    /// The text that filtering and sorting go by: the filter text where the
    /// item has one, else its label.
    pub open spec fn match_text(self) -> Seq<char> {
        match self.filter_text {
            Some(f) => f@,
            None => self.label@,
        }
    }

    /// The text by which the item is sorted.
    pub fn sort_text(&self) -> (r: &str)
        ensures
            r@ == self.match_text(),
    {
        match &self.filter_text {
            Some(f) => f.as_str(),
            None => self.label.as_str(),
        }
    }

    /// The text against which the typed pattern is matched.
    pub fn filter_text(&self) -> (r: &str)
        ensures
            r@ == self.match_text(),
    {
        match &self.filter_text {
            Some(f) => f.as_str(),
            None => self.label.as_str(),
        }
    }

    /// The label of the item.
    pub fn label(&self) -> (r: &str)
        ensures
            r@ == self.label@,
    {
        self.label.as_str()
    }

    /// The cells of the item's row in the menu: its label, then the name of
    /// its kind.
    pub fn row(&self) -> (r: Vec<&str>)
        requires
            known_kind(self.kind),
        ensures
            r@.len() == 2,
            r@[0]@ == self.label@,
            r@[1]@ == kind_name(self.kind),
    {
        let mut cells: Vec<&str> = Vec::new();
        cells.push(self.label.as_str());
        cells.push(kind_label(self.kind));
        cells
    }
}

} // verus!
