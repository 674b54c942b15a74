use vstd::prelude::*;
use crate::item::{CompletionItem, CompletionTextEdit, TextEdit, TextEditView};
use crate::text::{char_slice, strip_prefix, strip_prefix_spec};
use vstd::string::StringExecFns;

verus! {

/// A change of the document that accepting a completion makes.
#[derive(Debug)]
pub enum CompletionChange {
    /// Edits in the language server's coordinates, to be translated into the
    /// document's.
    Edits(Vec<TextEdit>),
    /// Replace the characters from index `from` up to `to` by `text`.
    Change { from: usize, to: usize, text: String },
}

/// What a change stands for, with its texts as characters.
pub enum CompletionChangeView {
    Edits(Seq<TextEditView>),
    Change { from: usize, to: usize, text: Seq<char> },
}

/// The views of a list of edits.
pub open spec fn edits_view(edits: Seq<TextEdit>) -> Seq<TextEditView> {
    edits.map_values(|e: TextEdit| e@)
}

impl View for CompletionChange {
    type V = CompletionChangeView;

    open spec fn view(&self) -> CompletionChangeView {
        match self {
            CompletionChange::Edits(v) => CompletionChangeView::Edits(edits_view(v@)),
            CompletionChange::Change { from, to, text } => CompletionChangeView::Change {
                from: *from,
                to: *to,
                text: text@,
            },
        }
    }
}

/// The views of a list of changes.
pub open spec fn changes_view(changes: Seq<CompletionChange>) -> Seq<CompletionChangeView> {
    changes.map_values(|c: CompletionChange| c@)
}

/// What the user is doing with the menu of completions.
#[derive(Clone, Copy, Debug, PartialEq, Eq, Structural)]
pub enum PromptEvent {
    /// Another item was selected: show it in the document.
    Update,
    /// The selected item was accepted.
    Validate,
    /// The menu was dismissed.
    Abort,
}

/// What the menu does to the document on an event: it first restores the
/// document as it was before any item was shown, then marks a savepoint when
/// `savepoint`, then applies `changes` in order.
#[derive(Debug)]
pub struct CallbackPlan {
    pub savepoint: bool,
    pub changes: Vec<CompletionChange>,
}

/// The text an item inserts where the server gives no edit: its insert text,
/// else its label.
pub open spec fn insert_text_of(item: CompletionItem) -> Seq<char> {
    match item.insert_text {
        Some(t) => t@,
        None => item.label@,
    }
}

/// Whether accepting `item` can be turned into a change of a document of
/// characters `doc`, where the completion started at `start_offset` and was
/// triggered at `trigger_offset`: the item's edit is a plain edit, or there is
/// none and the offsets lie within the document in order.
pub open spec fn item_applicable(
    item: CompletionItem,
    doc: Seq<char>,
    start_offset: usize,
    trigger_offset: usize,
) -> bool {
    match item.text_edit {
        Some(CompletionTextEdit::Edit(_)) => true,
        Some(CompletionTextEdit::InsertAndReplace(_)) => false,
        None => start_offset <= trigger_offset <= doc.len(),
    }
}

/// `text` without `prefix` in front where it starts with `prefix`, else
/// `text` itself.
pub open spec fn without_prefix(text: Seq<char>, prefix: Seq<char>) -> Seq<char> {
    match strip_prefix_spec(text, prefix) {
        Some(rest) => rest,
        None => text,
    }
}

/// The change that accepting `item` makes: the server's edit where it gives
/// one; else its insert text, inserted at the trigger offset, without what
/// was typed since the completion started where the insert text starts with
/// that.
pub open spec fn item_change(
    item: CompletionItem,
    doc: Seq<char>,
    start_offset: usize,
    trigger_offset: usize,
) -> CompletionChangeView {
    match item.text_edit {
        Some(CompletionTextEdit::Edit(e)) => CompletionChangeView::Edits(seq![e@]),
        _ => CompletionChangeView::Change {
            from: trigger_offset,
            to: trigger_offset,
            text: without_prefix(
                insert_text_of(item),
                doc.subrange(start_offset as int, trigger_offset as int),
            ),
        },
    }
}

/// The changes that accepting an item makes after its own change: its
/// additional edits, where it has a non-empty list of them.
pub open spec fn additional_changes(item: CompletionItem) -> Seq<CompletionChangeView> {
    match item.additional_text_edits {
        Some(v) => if v@.len() > 0 {
            seq![CompletionChangeView::Edits(edits_view(v@))]
        } else {
            Seq::empty()
        },
        None => Seq::empty(),
    }
}

/// A copy of an edit.
pub fn copy_edit(e: &TextEdit) -> (r: TextEdit)
    ensures
        r@ == e@,
{
    TextEdit { range: e.range, new_text: e.new_text.clone() }
}

/// A copy of a list of edits.
pub fn copy_edits(edits: &Vec<TextEdit>) -> (r: Vec<TextEdit>)
    ensures
        edits_view(r@) == edits_view(edits@),
{
    let mut r: Vec<TextEdit> = Vec::new();
    let mut i: usize = 0;
    while i < edits.len()
        invariant
            i <= edits@.len(),
            r@.len() == i,
            forall|j: int| 0 <= j < i ==> #[trigger] r@[j]@ == edits@[j]@,
        decreases edits@.len() - i,
    {
        r.push(copy_edit(&edits[i]));
        i = i + 1;
    }
    assert(edits_view(r@) =~= edits_view(edits@));
    r
}

/// The change of the document that accepting `item` makes (see
/// `item_change`).
pub fn item_to_transaction(
    doc_text: &str,
    item: &CompletionItem,
    start_offset: usize,
    trigger_offset: usize,
) -> (r: CompletionChange)
    requires
        item_applicable(*item, doc_text@, start_offset, trigger_offset),
    ensures
        r@ == item_change(*item, doc_text@, start_offset, trigger_offset),
{
    match &item.text_edit {
        Some(CompletionTextEdit::Edit(edit)) => {
            let mut edits: Vec<TextEdit> = Vec::new();
            edits.push(copy_edit(edit));
            assert(edits_view(edits@) =~= seq![edit@]);
            CompletionChange::Edits(edits)
        },
        Some(CompletionTextEdit::InsertAndReplace(_)) => {
            proof {
                assert(false);
            }
            CompletionChange::Edits(Vec::new())
        },
        None => {
            let text: &str = match &item.insert_text {
                Some(t) => t.as_str(),
                None => item.label.as_str(),
            };
            let prefix = char_slice(doc_text, start_offset, trigger_offset);
            let inserted: &str = match strip_prefix(text, prefix) {
                Some(rest) => rest,
                None => text,
            };
            CompletionChange::Change {
                from: trigger_offset,
                to: trigger_offset,
                text: String::from_str(inserted),
            }
        },
    }
}

/// What the menu plans on `event` for the selected `item`.
pub open spec fn prompt_plan(
    event: PromptEvent,
    item: CompletionItem,
    doc: Seq<char>,
    start_offset: usize,
    trigger_offset: usize,
) -> (bool, Seq<CompletionChangeView>) {
    match event {
        PromptEvent::Abort => (false, Seq::empty()),
        PromptEvent::Update => (true, seq![item_change(item, doc, start_offset, trigger_offset)]),
        PromptEvent::Validate => (
            false,
            seq![item_change(item, doc, start_offset, trigger_offset)] + additional_changes(item),
        ),
    }
}

/// What the menu does to the document on `event`, `item` being the selected
/// item: nothing more than restoring it on abort; showing the item's change
/// after a savepoint on update; applying the item's change and then its
/// additional edits on validation.
pub fn on_prompt_event(
    event: PromptEvent,
    item: Option<&CompletionItem>,
    doc_text: &str,
    start_offset: usize,
    trigger_offset: usize,
) -> (r: CallbackPlan)
    requires
        event != PromptEvent::Abort ==> item is Some && item_applicable(
            *item->0,
            doc_text@,
            start_offset,
            trigger_offset,
        ),
    ensures
        event == PromptEvent::Abort ==> !r.savepoint && r.changes@.len() == 0,
        event != PromptEvent::Abort ==> (r.savepoint, changes_view(r.changes@)) == prompt_plan(
            event,
            *item->0,
            doc_text@,
            start_offset,
            trigger_offset,
        ),
{
    match event {
        PromptEvent::Abort => CallbackPlan { savepoint: false, changes: Vec::new() },
        PromptEvent::Update => {
            let item = item.unwrap();
            let mut changes: Vec<CompletionChange> = Vec::new();
            changes.push(item_to_transaction(doc_text, item, start_offset, trigger_offset));
            assert(changes_view(changes@) =~= seq![
                item_change(*item, doc_text@, start_offset, trigger_offset),
            ]);
            CallbackPlan { savepoint: true, changes }
        },
        PromptEvent::Validate => {
            let item = item.unwrap();
            let mut changes: Vec<CompletionChange> = Vec::new();
            changes.push(item_to_transaction(doc_text, item, start_offset, trigger_offset));
            match &item.additional_text_edits {
                Some(additional) => {
                    if additional.len() > 0 {
                        changes.push(CompletionChange::Edits(copy_edits(additional)));
                    }
                },
                None => {},
            }
            assert(changes_view(changes@) =~= seq![
                item_change(*item, doc_text@, start_offset, trigger_offset),
            ] + additional_changes(*item));
            CallbackPlan { savepoint: false, changes }
        },
    }
}

} // verus!

verus! {

/// Where the server gives no edit, accepting an item inserts at the trigger
/// offset the rest of its insert text after what was typed since the
/// completion started, where the insert text starts with that, so that the
/// typed text and the insertion together make the insert text; else the whole
/// insert text.
pub proof fn lemma_insertion_completes_typed_text(
    item: CompletionItem,
    doc: Seq<char>,
    start_offset: usize,
    trigger_offset: usize,
)
    requires
        item.text_edit is None,
        start_offset <= trigger_offset <= doc.len(),
    ensures
        match item_change(item, doc, start_offset, trigger_offset) {
            CompletionChangeView::Change { from, to, text } => {
                let typed = doc.subrange(start_offset as int, trigger_offset as int);
                &&& from == trigger_offset
                &&& to == trigger_offset
                &&& typed.is_prefix_of(insert_text_of(item)) ==> typed + text
                    == insert_text_of(item)
                &&& !typed.is_prefix_of(insert_text_of(item)) ==> text == insert_text_of(item)
            },
            CompletionChangeView::Edits(_) => false,
        },
{
    let typed = doc.subrange(start_offset as int, trigger_offset as int);
    let t = insert_text_of(item);
    if typed.is_prefix_of(t) {
        assert(typed + t.skip(typed.len() as int) =~= t);
    }
}

} // verus!

verus! {

/// A document as the menu's callback sees it: its text, and the text that a
/// pending savepoint restores, if any.
pub ghost struct DocModel {
    pub text: Seq<char>,
    pub savepoint: Option<Seq<char>>,
}

/// The text after one change; `apply_edits` stands for how the editor
/// applies a language server's edits to a text.
pub open spec fn apply_change(
    text: Seq<char>,
    change: CompletionChangeView,
    apply_edits: spec_fn(Seq<char>, Seq<TextEditView>) -> Seq<char>,
) -> Seq<char> {
    match change {
        CompletionChangeView::Change { from, to, text: inserted } => text.subrange(0, from as int)
            + inserted + text.subrange(to as int, text.len() as int),
        CompletionChangeView::Edits(edits) => apply_edits(text, edits),
    }
}

/// The text after the changes, applied in order.
pub open spec fn apply_changes(
    text: Seq<char>,
    changes: Seq<CompletionChangeView>,
    apply_edits: spec_fn(Seq<char>, Seq<TextEditView>) -> Seq<char>,
) -> Seq<char>
    decreases changes.len(),
{
    if changes.len() == 0 {
        text
    } else {
        apply_changes(apply_change(text, changes[0], apply_edits), changes.skip(1), apply_edits)
    }
}

/// The document after restoring its savepoint, if one is pending; the
/// savepoint is then used up.
pub open spec fn restore(doc: DocModel) -> DocModel {
    match doc.savepoint {
        Some(t) => DocModel { text: t, savepoint: None },
        None => doc,
    }
}

/// The document after the menu carried out a plan: it restores the document,
/// marks a savepoint of the restored text where the plan asks for one, then
/// applies the plan's changes.
pub open spec fn run_plan(
    doc: DocModel,
    plan: (bool, Seq<CompletionChangeView>),
    apply_edits: spec_fn(Seq<char>, Seq<TextEditView>) -> Seq<char>,
) -> DocModel {
    let restored = restore(doc);
    let marked = if plan.0 {
        DocModel { text: restored.text, savepoint: Some(restored.text) }
    } else {
        restored
    };
    DocModel {
        text: apply_changes(marked.text, plan.1, apply_edits),
        savepoint: marked.savepoint,
    }
}

/// Showing one item and then another leaves the document as showing only the
/// second: the first item's change is undone, and the savepoint still holds
/// the text from before both.
pub proof fn lemma_second_update_replaces_first(
    text: Seq<char>,
    first: CompletionItem,
    second: CompletionItem,
    start_offset: usize,
    trigger_offset: usize,
    apply_edits: spec_fn(Seq<char>, Seq<TextEditView>) -> Seq<char>,
)
    ensures
        ({
            let doc = DocModel { text, savepoint: None };
            let p1 = prompt_plan(PromptEvent::Update, first, text, start_offset, trigger_offset);
            let p2 = prompt_plan(PromptEvent::Update, second, text, start_offset, trigger_offset);
            &&& run_plan(run_plan(doc, p1, apply_edits), p2, apply_edits) == run_plan(
                doc,
                p2,
                apply_edits,
            )
            &&& run_plan(doc, p2, apply_edits).savepoint == Some(text)
        }),
{
}

/// Showing an item and then dismissing the menu gives the document back as
/// it was, with no savepoint pending.
pub proof fn lemma_abort_undoes_update(
    text: Seq<char>,
    item: CompletionItem,
    other: CompletionItem,
    start_offset: usize,
    trigger_offset: usize,
    apply_edits: spec_fn(Seq<char>, Seq<TextEditView>) -> Seq<char>,
)
    ensures
        ({
            let doc = DocModel { text, savepoint: None };
            let shown = run_plan(
                doc,
                prompt_plan(PromptEvent::Update, item, text, start_offset, trigger_offset),
                apply_edits,
            );
            run_plan(
                shown,
                prompt_plan(PromptEvent::Abort, other, text, start_offset, trigger_offset),
                apply_edits,
            ) == doc
        }),
{
}

} // verus!

verus! {

/// Where the server gives an edit for an item, accepting the item makes
/// exactly that edit, once: same span (start and end) and same text.
pub proof fn lemma_server_edit_kept_as_given(
    item: CompletionItem,
    edit: TextEdit,
    doc: Seq<char>,
    start_offset: usize,
    trigger_offset: usize,
)
    requires
        item.text_edit == Some(CompletionTextEdit::Edit(edit)),
    ensures
        match item_change(item, doc, start_offset, trigger_offset) {
            CompletionChangeView::Edits(edits) => {
                &&& edits.len() == 1
                &&& edits[0].range.start == edit.range.start
                &&& edits[0].range.end == edit.range.end
                &&& edits[0].new_text == edit.new_text@
            },
            CompletionChangeView::Change { .. } => false,
        },
{
}

} // verus!
