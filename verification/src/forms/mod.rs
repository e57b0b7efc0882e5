//! High-level form system for user input collection: forms made of typed
//! fields, the keys that edit them, validation, and the values they yield.
use vstd::prelude::*;

use crate::text::{chars_of, contains_char, decimal_text, i64_to_text, pop_char, push_char, strs};

verus! {

/// Path field kind
#[derive(Clone, Copy, Debug, PartialEq, Eq, Structural)]
pub enum PathKind {
    File,
    Directory,
    Any,
}

/// Individual form field types
#[derive(Clone, Debug)]
pub enum FormField {
    TextInput { id: String, label: String, placeholder: String, value: String },
    TextArea { id: String, label: String, placeholder: String, value: String, height: usize },
    Email { id: String, label: String, placeholder: String, value: String },
    Number { id: String, label: String, value: i64, min: Option<i64>, max: Option<i64> },
    Select { id: String, label: String, options: Vec<String>, selected: usize },
    /// `selected` holds the indices of the selected options.
    MultiSelect { id: String, label: String, options: Vec<String>, selected: Vec<usize> },
    Checkbox { id: String, label: String, checked: bool },
    Path { id: String, label: String, value: String, kind: PathKind },
}

/// What a field holds, with its strings as their characters.
pub enum FieldView {
    TextInput { id: Seq<char>, label: Seq<char>, placeholder: Seq<char>, value: Seq<char> },
    TextArea {
        id: Seq<char>,
        label: Seq<char>,
        placeholder: Seq<char>,
        value: Seq<char>,
        height: usize,
    },
    Email { id: Seq<char>, label: Seq<char>, placeholder: Seq<char>, value: Seq<char> },
    Number { id: Seq<char>, label: Seq<char>, value: i64, min: Option<i64>, max: Option<i64> },
    Select { id: Seq<char>, label: Seq<char>, options: Seq<Seq<char>>, selected: usize },
    MultiSelect {
        id: Seq<char>,
        label: Seq<char>,
        options: Seq<Seq<char>>,
        selected: Seq<usize>,
    },
    Checkbox { id: Seq<char>, label: Seq<char>, checked: bool },
    Path { id: Seq<char>, label: Seq<char>, value: Seq<char>, kind: PathKind },
}

impl View for FormField {
    type V = FieldView;

    open spec fn view(&self) -> FieldView {
        match self {
            FormField::TextInput { id, label, placeholder, value } => FieldView::TextInput {
                id: id@,
                label: label@,
                placeholder: placeholder@,
                value: value@,
            },
            FormField::TextArea { id, label, placeholder, value, height } => FieldView::TextArea {
                id: id@,
                label: label@,
                placeholder: placeholder@,
                value: value@,
                height: *height,
            },
            FormField::Email { id, label, placeholder, value } => FieldView::Email {
                id: id@,
                label: label@,
                placeholder: placeholder@,
                value: value@,
            },
            FormField::Number { id, label, value, min, max } => FieldView::Number {
                id: id@,
                label: label@,
                value: *value,
                min: *min,
                max: *max,
            },
            FormField::Select { id, label, options, selected } => FieldView::Select {
                id: id@,
                label: label@,
                options: strs(options@),
                selected: *selected,
            },
            FormField::MultiSelect { id, label, options, selected } => FieldView::MultiSelect {
                id: id@,
                label: label@,
                options: strs(options@),
                selected: selected@,
            },
            FormField::Checkbox { id, label, checked } => FieldView::Checkbox {
                id: id@,
                label: label@,
                checked: *checked,
            },
            FormField::Path { id, label, value, kind } => FieldView::Path {
                id: id@,
                label: label@,
                value: value@,
                kind: *kind,
            },
        }
    }
}

/// Extracted form values
#[derive(Clone, Debug)]
pub enum FormValue {
    Text(String),
    Email(String),
    Number(i64),
    Bool(bool),
    Path(String),
    List(Vec<String>),
}

pub enum ValueView {
    Text(Seq<char>),
    Email(Seq<char>),
    Number(i64),
    Bool(bool),
    Path(Seq<char>),
    List(Seq<Seq<char>>),
}

impl View for FormValue {
    type V = ValueView;

    open spec fn view(&self) -> ValueView {
        match self {
            FormValue::Text(s) => ValueView::Text(s@),
            FormValue::Email(s) => ValueView::Email(s@),
            FormValue::Number(n) => ValueView::Number(*n),
            FormValue::Bool(b) => ValueView::Bool(*b),
            FormValue::Path(s) => ValueView::Path(s@),
            FormValue::List(l) => ValueView::List(strs(l@)),
        }
    }
}

/// Why a field's value was refused.
#[derive(Clone, Debug)]
pub enum FormError {
    /// An email field whose non-empty value holds no `@`.
    InvalidEmail { label: String },
    /// A number below the field's minimum.
    BelowMinimum { label: String, min: i64 },
    /// A number above the field's maximum.
    AboveMaximum { label: String, max: i64 },
}

pub enum FormErrorView {
    InvalidEmail { label: Seq<char> },
    BelowMinimum { label: Seq<char>, min: i64 },
    AboveMaximum { label: Seq<char>, max: i64 },
}

impl View for FormError {
    type V = FormErrorView;

    open spec fn view(&self) -> FormErrorView {
        match self {
            FormError::InvalidEmail { label } => FormErrorView::InvalidEmail { label: label@ },
            FormError::BelowMinimum { label, min } => FormErrorView::BelowMinimum {
                label: label@,
                min: *min,
            },
            FormError::AboveMaximum { label, max } => FormErrorView::AboveMaximum {
                label: label@,
                max: *max,
            },
        }
    }
}

/// The message of a refused field, as the form shows it.
pub open spec fn form_error_text(e: FormErrorView) -> Seq<char> {
    match e {
        FormErrorView::InvalidEmail { label } => label + ": Invalid email format"@,
        FormErrorView::BelowMinimum { label, min } => label + ": Value must be at least "@
            + decimal_text(min as int),
        FormErrorView::AboveMaximum { label, max } => label + ": Value must be at most "@
            + decimal_text(max as int),
    }
}

impl FormError {
    /// The message of the error, as the form shows it.
    pub fn message(&self) -> (r: String)
        ensures
            r@ == form_error_text(self@),
    {
        match self {
            FormError::InvalidEmail { label } => {
                let mut out = label.clone();
                out.append(": Invalid email format");
                out
            },
            FormError::BelowMinimum { label, min } => {
                let mut out = label.clone();
                out.append(": Value must be at least ");
                let n = i64_to_text(*min);
                out.append(n.as_str());
                out
            },
            FormError::AboveMaximum { label, max } => {
                let mut out = label.clone();
                out.append(": Value must be at most ");
                let n = i64_to_text(*max);
                out.append(n.as_str());
                out
            },
        }
    }
}

// ---------------------------------------------------------------------------
// What a field is and says
// ---------------------------------------------------------------------------
pub open spec fn field_id(f: FieldView) -> Seq<char> {
    match f {
        FieldView::TextInput { id, .. } => id,
        FieldView::TextArea { id, .. } => id,
        FieldView::Email { id, .. } => id,
        FieldView::Number { id, .. } => id,
        FieldView::Select { id, .. } => id,
        FieldView::MultiSelect { id, .. } => id,
        FieldView::Checkbox { id, .. } => id,
        FieldView::Path { id, .. } => id,
    }
}

pub open spec fn field_label(f: FieldView) -> Seq<char> {
    match f {
        FieldView::TextInput { label, .. } => label,
        FieldView::TextArea { label, .. } => label,
        FieldView::Email { label, .. } => label,
        FieldView::Number { label, .. } => label,
        FieldView::Select { label, .. } => label,
        FieldView::MultiSelect { label, .. } => label,
        FieldView::Checkbox { label, .. } => label,
        FieldView::Path { label, .. } => label,
    }
}

/// The options at the selected indices, in the order of `selected`; indices
/// past the end are skipped.
pub open spec fn picked(options: Seq<Seq<char>>, selected: Seq<usize>) -> Seq<Seq<char>>
    decreases selected.len(),
{
    if selected.len() == 0 {
        seq![]
    } else {
        let rest = picked(options, selected.drop_last());
        if selected.last() < options.len() {
            rest.push(options[selected.last() as int])
        } else {
            rest
        }
    }
}

/// The value a field yields: its text for text fields and a select (the empty
/// text where nothing valid is selected), the picked options of a
/// multi-select, the number, the checkbox state, or the path.
pub open spec fn field_value(f: FieldView) -> ValueView {
    match f {
        FieldView::TextInput { value, .. } => ValueView::Text(value),
        FieldView::TextArea { value, .. } => ValueView::Text(value),
        FieldView::Email { value, .. } => ValueView::Email(value),
        FieldView::Number { value, .. } => ValueView::Number(value),
        FieldView::Select { options, selected, .. } => ValueView::Text(
            if selected < options.len() {
                options[selected as int]
            } else {
                seq![]
            },
        ),
        FieldView::MultiSelect { options, selected, .. } => ValueView::List(
            picked(options, selected),
        ),
        FieldView::Checkbox { checked, .. } => ValueView::Bool(checked),
        FieldView::Path { value, .. } => ValueView::Path(value),
    }
}

/// The verdict on a field: an email needs an `@` unless it is empty; a number
/// must not be below its minimum, then not above its maximum; other fields pass.
pub open spec fn field_verdict(f: FieldView) -> Result<(), FormErrorView> {
    match f {
        FieldView::Email { value, label, .. } => if value.len() > 0 && !value.contains('@') {
            Err(FormErrorView::InvalidEmail { label })
        } else {
            Ok(())
        },
        FieldView::Number { value, min, max, label, .. } => if min matches Some(m) && value < m {
            Err(FormErrorView::BelowMinimum { label, min: min->0 })
        } else if max matches Some(m) && value > m {
            Err(FormErrorView::AboveMaximum { label, max: max->0 })
        } else {
            Ok(())
        },
        _ => Ok(()),
    }
}

/// A typed character goes to the end of a text, text-area or email field;
/// other fields ignore it.
pub open spec fn after_char(f: FieldView, c: char) -> FieldView {
    match f {
        FieldView::TextInput { id, label, placeholder, value } => FieldView::TextInput {
            id,
            label,
            placeholder,
            value: value.push(c),
        },
        FieldView::TextArea { id, label, placeholder, value, height } => FieldView::TextArea {
            id,
            label,
            placeholder,
            value: value.push(c),
            height,
        },
        FieldView::Email { id, label, placeholder, value } => FieldView::Email {
            id,
            label,
            placeholder,
            value: value.push(c),
        },
        _ => f,
    }
}

pub open spec fn drop_last_char(s: Seq<char>) -> Seq<char> {
    if s.len() > 0 {
        s.drop_last()
    } else {
        s
    }
}

/// Backspace removes the last character of a text, text-area or email field.
pub open spec fn after_backspace(f: FieldView) -> FieldView {
    match f {
        FieldView::TextInput { id, label, placeholder, value } => FieldView::TextInput {
            id,
            label,
            placeholder,
            value: drop_last_char(value),
        },
        FieldView::TextArea { id, label, placeholder, value, height } => FieldView::TextArea {
            id,
            label,
            placeholder,
            value: drop_last_char(value),
            height,
        },
        FieldView::Email { id, label, placeholder, value } => FieldView::Email {
            id,
            label,
            placeholder,
            value: drop_last_char(value),
        },
        _ => f,
    }
}

/// Up moves a select to the previous option (not past the first) and
/// increments a number.
pub open spec fn after_up(f: FieldView) -> FieldView {
    match f {
        FieldView::Select { id, label, options, selected } => FieldView::Select {
            id,
            label,
            options,
            selected: if selected > 0 {
                (selected - 1) as usize
            } else {
                selected
            },
        },
        FieldView::Number { id, label, value, min, max } => FieldView::Number {
            id,
            label,
            value: (value + 1) as i64,
            min,
            max,
        },
        _ => f,
    }
}

/// Down moves a select to the next option (not past the last) and
/// decrements a number.
pub open spec fn after_down(f: FieldView) -> FieldView {
    match f {
        FieldView::Select { id, label, options, selected } => FieldView::Select {
            id,
            label,
            options,
            selected: if options.len() > 0 && selected < options.len() - 1 {
                (selected + 1) as usize
            } else {
                selected
            },
        },
        FieldView::Number { id, label, value, min, max } => FieldView::Number {
            id,
            label,
            value: (value - 1) as i64,
            min,
            max,
        },
        _ => f,
    }
}

/// Space toggles a checkbox; on a multi-select it selects the first option
/// when nothing is selected and clears the selection otherwise.
pub open spec fn after_space(f: FieldView) -> FieldView {
    match f {
        FieldView::Checkbox { id, label, checked } => FieldView::Checkbox {
            id,
            label,
            checked: !checked,
        },
        FieldView::MultiSelect { id, label, options, selected } => FieldView::MultiSelect {
            id,
            label,
            options,
            selected: if selected.len() == 0 {
                seq![0usize]
            } else {
                seq![]
            },
        },
        _ => f,
    }
}

/// A number field at the top of `i64` cannot be incremented, nor one at the bottom decremented.
pub open spec fn can_go_up(f: FieldView) -> bool {
    f matches FieldView::Number { value, .. } ==> value < i64::MAX
}

pub open spec fn can_go_down(f: FieldView) -> bool {
    f matches FieldView::Number { value, .. } ==> value > i64::MIN
}

impl FormField {
    /// Get field ID and current value
    pub fn get_value(&self) -> (r: (String, FormValue))
        ensures
            r.0@ == field_id(self@),
            r.1@ == field_value(self@),
    {
        match self {
            FormField::TextInput { id, value, .. } => (id.clone(), FormValue::Text(value.clone())),
            FormField::TextArea { id, value, .. } => (id.clone(), FormValue::Text(value.clone())),
            FormField::Email { id, value, .. } => (id.clone(), FormValue::Email(value.clone())),
            FormField::Number { id, value, .. } => (id.clone(), FormValue::Number(*value)),
            FormField::Select { id, options, selected, .. } => {
                let text = if *selected < options.len() {
                    options[*selected].clone()
                } else {
                    String::new()
                };
                (id.clone(), FormValue::Text(text))
            },
            FormField::MultiSelect { id, options, selected, .. } => {
                let mut values: Vec<String> = Vec::new();
                let mut i: usize = 0;
                while i < selected.len()
                    invariant
                        i <= selected@.len(),
                        strs(values@) == picked(strs(options@), selected@.subrange(0, i as int)),
                    decreases selected.len() - i,
                {
                    let k = selected[i];
                    assert(selected@.subrange(0, i + 1).drop_last() =~= selected@.subrange(
                        0,
                        i as int,
                    ));
                    if k < options.len() {
                        values.push(options[k].clone());
                        assert(strs(values@) =~= picked(
                            strs(options@),
                            selected@.subrange(0, i as int),
                        ).push(options@[k as int]@));
                    }
                    i = i + 1;
                }
                assert(selected@.subrange(0, selected@.len() as int) =~= selected@);
                (id.clone(), FormValue::List(values))
            },
            FormField::Checkbox { id, checked, .. } => (id.clone(), FormValue::Bool(*checked)),
            FormField::Path { id, value, .. } => (id.clone(), FormValue::Path(value.clone())),
        }
    }

    /// Get field label
    pub fn label(&self) -> (r: &str)
        ensures
            r@ == field_label(self@),
    {
        match self {
            FormField::TextInput { label, .. } => label.as_str(),
            FormField::TextArea { label, .. } => label.as_str(),
            FormField::Email { label, .. } => label.as_str(),
            FormField::Number { label, .. } => label.as_str(),
            FormField::Select { label, .. } => label.as_str(),
            FormField::MultiSelect { label, .. } => label.as_str(),
            FormField::Checkbox { label, .. } => label.as_str(),
            FormField::Path { label, .. } => label.as_str(),
        }
    }

    /// Validate field value
    pub fn validate(&self) -> (r: Result<(), FormError>)
        ensures
            r is Ok <==> field_verdict(self@) is Ok,
            r matches Err(e) ==> field_verdict(self@) == Err::<(), FormErrorView>(e@),
    {
        match self {
            FormField::Email { value, label, .. } => {
                let chars = chars_of(value.as_str());
                if chars.len() > 0 && !contains_char(&chars, '@') {
                    return Err(FormError::InvalidEmail { label: label.clone() });
                }
            },
            FormField::Number { value, min, max, label, .. } => {
                if let Some(min_val) = min {
                    if *value < *min_val {
                        return Err(FormError::BelowMinimum { label: label.clone(), min: *min_val });
                    }
                }
                if let Some(max_val) = max {
                    if *value > *max_val {
                        return Err(FormError::AboveMaximum { label: label.clone(), max: *max_val });
                    }
                }
            },
            _ => {},
        }
        Ok(())
    }

    /// Handle text input (for text fields)
    pub fn handle_char(&mut self, c: char)
        ensures
            final(self)@ == after_char(old(self)@, c),
    {
        match self {
            FormField::TextInput { value, .. } => push_char(value, c),
            FormField::TextArea { value, .. } => push_char(value, c),
            FormField::Email { value, .. } => push_char(value, c),
            _ => {},
        }
    }

    /// Handle backspace (for text fields)
    pub fn handle_backspace(&mut self)
        ensures
            final(self)@ == after_backspace(old(self)@),
    {
        match self {
            FormField::TextInput { value, .. } => {
                pop_char(value);
            },
            FormField::TextArea { value, .. } => {
                pop_char(value);
            },
            FormField::Email { value, .. } => {
                pop_char(value);
            },
            _ => {},
        }
    }

    /// Handle up (previous option of a select; a number goes up by one)
    pub fn handle_up(&mut self)
        requires
            can_go_up(old(self)@),
        ensures
            final(self)@ == after_up(old(self)@),
    {
        match self {
            FormField::Select { selected, .. } => {
                if *selected > 0 {
                    *selected = *selected - 1;
                }
            },
            FormField::Number { value, .. } => {
                *value = *value + 1;
            },
            _ => {},
        }
    }

    /// Handle down (next option of a select; a number goes down by one)
    pub fn handle_down(&mut self)
        requires
            can_go_down(old(self)@),
        ensures
            final(self)@ == after_down(old(self)@),
    {
        match self {
            FormField::Select { selected, options, .. } => {
                if options.len() > 0 && *selected < options.len() - 1 {
                    *selected = *selected + 1;
                }
            },
            FormField::Number { value, .. } => {
                *value = *value - 1;
            },
            _ => {},
        }
    }

    /// Handle space (for checkboxes and multi-select)
    pub fn handle_space(&mut self)
        ensures
            final(self)@ == after_space(old(self)@),
    {
        match self {
            FormField::Checkbox { checked, .. } => {
                *checked = !*checked;
            },
            FormField::MultiSelect { selected, .. } => {
                if selected.len() == 0 {
                    selected.push(0);
                    assert(selected@ =~= seq![0usize]);
                } else {
                    selected.clear();
                    assert(selected@ =~= Seq::<usize>::empty());
                }
            },
            _ => {},
        }
    }
}

} // verus!

verus! {

impl FormValue {
    pub fn as_str(&self) -> (r: Option<&str>)
        ensures
            r matches Some(s) ==> (self@ == ValueView::Text(s@) || self@ == ValueView::Email(s@)
                || self@ == ValueView::Path(s@)),
            r is None <==> !(self is Text || self is Email || self is Path),
    {
        match self {
            FormValue::Text(s) => Some(s.as_str()),
            FormValue::Email(s) => Some(s.as_str()),
            FormValue::Path(s) => Some(s.as_str()),
            _ => None,
        }
    }

    pub fn as_number(&self) -> (r: Option<i64>)
        ensures
            r == (match self@ {
                ValueView::Number(n) => Some(n),
                _ => None::<i64>,
            }),
    {
        match self {
            FormValue::Number(n) => Some(*n),
            _ => None,
        }
    }

    pub fn as_bool(&self) -> (r: Option<bool>)
        ensures
            r == (match self@ {
                ValueView::Bool(b) => Some(b),
                _ => None::<bool>,
            }),
    {
        match self {
            FormValue::Bool(b) => Some(*b),
            _ => None,
        }
    }

    pub fn as_list(&self) -> (r: Option<&[String]>)
        ensures
            r matches Some(l) ==> self@ == ValueView::List(strs(l@)),
            r is None <==> !(self is List),
    {
        match self {
            FormValue::List(list) => Some(list.as_slice()),
            _ => None,
        }
    }
}

/// A complete form with multiple fields
#[derive(Clone, Debug)]
pub struct Form {
    pub title: String,
    pub description: Option<String>,
    pub fields: Vec<FormField>,
    pub current_field: usize,
    pub submitted: bool,
    pub cancelled: bool,
}

pub open spec fn fields_view(v: Seq<FormField>) -> Seq<FieldView> {
    v.map_values(|f: FormField| f@)
}

/// A form, with its strings as their characters and its fields by their views.
pub struct FormView {
    pub title: Seq<char>,
    pub description: Option<Seq<char>>,
    pub fields: Seq<FieldView>,
    pub current_field: usize,
    pub submitted: bool,
    pub cancelled: bool,
}

impl View for Form {
    type V = FormView;

    open spec fn view(&self) -> FormView {
        FormView {
            title: self.title@,
            description: match self.description {
                Some(d) => Some(d@),
                None => None,
            },
            fields: fields_view(self.fields@),
            current_field: self.current_field,
            submitted: self.submitted,
            cancelled: self.cancelled,
        }
    }
}

/// The entries `(id, value)` of a collection of values, each id once.
pub type Entries = Seq<(Seq<char>, ValueView)>;

/// Where `id` stands among the entries, if it does.
pub open spec fn index_of_id(m: Entries, id: Seq<char>) -> Option<int>
    decreases m.len(),
{
    if m.len() == 0 {
        None
    } else if m.last().0 == id {
        Some(m.len() - 1)
    } else {
        index_of_id(m.drop_last(), id)
    }
}

/// The entries with `id` holding `v`: replaced in place where `id` is present,
/// added at the end otherwise (what inserting into a map does).
pub open spec fn upsert(m: Entries, id: Seq<char>, v: ValueView) -> Entries {
    match index_of_id(m, id) {
        Some(i) => m.update(i, (id, v)),
        None => m.push((id, v)),
    }
}

/// The values of the fields, by id: for an id used by several fields, the
/// value of the last of them, in the place where the id first appears.
pub open spec fn form_values(fields: Seq<FieldView>) -> Entries
    decreases fields.len(),
{
    if fields.len() == 0 {
        seq![]
    } else {
        let f = fields.last();
        upsert(form_values(fields.drop_last()), field_id(f), field_value(f))
    }
}

/// The first field error of the form, in field order, if any.
pub open spec fn form_verdict(fields: Seq<FieldView>) -> Result<(), FormErrorView>
    decreases fields.len(),
{
    if fields.len() == 0 {
        Ok(())
    } else {
        match form_verdict(fields.drop_last()) {
            Err(e) => Err(e),
            Ok(()) => field_verdict(fields.last()),
        }
    }
}

pub open spec fn entries_view(v: Seq<(String, FormValue)>) -> Entries {
    v.map_values(|e: (String, FormValue)| (e.0@, e.1@))
}

pub proof fn lemma_index_of_id(m: Entries, id: Seq<char>)
    ensures
        index_of_id(m, id) matches Some(i) ==> 0 <= i < m.len() && m[i].0 == id,
        index_of_id(m, id) is None ==> forall|j: int| 0 <= j < m.len() ==> m[j].0 != id,
    decreases m.len(),
{
    if m.len() > 0 && m.last().0 != id {
        lemma_index_of_id(m.drop_last(), id);
        assert forall|j: int| 0 <= j < m.len() - 1 implies m[j] == m.drop_last()[j] by {}
    }
}

pub proof fn lemma_index_of_id_is_last_match(m: Entries, id: Seq<char>, i: int)
    requires
        0 <= i < m.len(),
        m[i].0 == id,
        forall|j: int| i < j < m.len() ==> m[j].0 != id,
    ensures
        index_of_id(m, id) == Some(i),
    decreases m.len(),
{
    if m.last().0 != id {
        lemma_index_of_id_is_last_match(m.drop_last(), id, i);
    }
}

fn upsert_exec(m: &mut Vec<(String, FormValue)>, id: String, v: FormValue)
    ensures
        entries_view(final(m)@) == upsert(entries_view(old(m)@), id@, v@),
{
    let ghost em = entries_view(m@);
    proof {
        lemma_index_of_id(em, id@);
    }
    let mut k: usize = m.len();
    while k > 0
        invariant
            k <= m@.len(),
            em == entries_view(m@),
            em == entries_view(old(m)@),
            forall|j: int| k <= j < m@.len() ==> m@[j].0@ != id@,
        decreases k,
    {
        if m[k - 1].0 == id {
            proof {
                lemma_index_of_id_is_last_match(em, id@, k - 1);
            }
            m.set(k - 1, (id, v));
            assert(entries_view(m@) =~= em.update(k - 1, (id@, v@)));
            return ;
        }
        k = k - 1;
    }
    proof {
        match index_of_id(em, id@) {
            Some(i) => {
                assert(em[i].0 == m@[i].0@);
            },
            None => {},
        }
    }
    m.push((id, v));
    assert(entries_view(m@) =~= em.push((id@, v@)));
}

impl Form {
    pub fn new(title: &str) -> (r: Self)
        ensures
            r.title@ == title@,
            r.description is None,
            r.fields@.len() == 0,
            r.current_field == 0,
            !r.submitted,
            !r.cancelled,
    {
        Form {
            title: title.to_string(),
            description: None,
            fields: Vec::new(),
            current_field: 0,
            submitted: false,
            cancelled: false,
        }
    }

    pub fn description(self, desc: &str) -> (r: Self)
        ensures
            r.description matches Some(d) && d@ == desc@,
            r.title == self.title,
            r.fields == self.fields,
            r.current_field == self.current_field,
            r.submitted == self.submitted,
            r.cancelled == self.cancelled,
    {
        let mut s = self;
        s.description = Some(desc.to_string());
        s
    }

    pub fn field(self, field: FormField) -> (r: Self)
        ensures
            r.fields@ == self.fields@.push(field),
            r.title == self.title,
            r.description == self.description,
            r.current_field == self.current_field,
            r.submitted == self.submitted,
            r.cancelled == self.cancelled,
    {
        let mut s = self;
        s.fields.push(field);
        s
    }

    pub fn text_input(self, id: &str, label: &str, placeholder: &str) -> (r: Self)
        ensures
            fields_view(r.fields@) == fields_view(self.fields@).push(
                FieldView::TextInput { id: id@, label: label@, placeholder: placeholder@, value: seq![] },
            ),
            r.title == self.title,
            r.description == self.description,
            r.current_field == self.current_field,
            r.submitted == self.submitted,
            r.cancelled == self.cancelled,
    {
        let f = FormField::TextInput {
            id: id.to_string(),
            label: label.to_string(),
            placeholder: placeholder.to_string(),
            value: String::new(),
        };
        let r = self.field(f);
        assert(fields_view(r.fields@) =~= fields_view(self.fields@).push(f@));
        r
    }

    pub fn text_area(self, id: &str, label: &str, placeholder: &str, height: usize) -> (r: Self)
        ensures
            fields_view(r.fields@) == fields_view(self.fields@).push(
                FieldView::TextArea {
                    id: id@,
                    label: label@,
                    placeholder: placeholder@,
                    value: seq![],
                    height,
                },
            ),
            r.title == self.title,
            r.description == self.description,
            r.current_field == self.current_field,
            r.submitted == self.submitted,
            r.cancelled == self.cancelled,
    {
        let f = FormField::TextArea {
            id: id.to_string(),
            label: label.to_string(),
            placeholder: placeholder.to_string(),
            value: String::new(),
            height,
        };
        let r = self.field(f);
        assert(fields_view(r.fields@) =~= fields_view(self.fields@).push(f@));
        r
    }

    pub fn email(self, id: &str, label: &str, placeholder: &str) -> (r: Self)
        ensures
            fields_view(r.fields@) == fields_view(self.fields@).push(
                FieldView::Email { id: id@, label: label@, placeholder: placeholder@, value: seq![] },
            ),
            r.title == self.title,
            r.description == self.description,
            r.current_field == self.current_field,
            r.submitted == self.submitted,
            r.cancelled == self.cancelled,
    {
        let f = FormField::Email {
            id: id.to_string(),
            label: label.to_string(),
            placeholder: placeholder.to_string(),
            value: String::new(),
        };
        let r = self.field(f);
        assert(fields_view(r.fields@) =~= fields_view(self.fields@).push(f@));
        r
    }

    pub fn number(self, id: &str, label: &str, default: i64, min: Option<i64>, max: Option<i64>) -> (r:
        Self)
        ensures
            fields_view(r.fields@) == fields_view(self.fields@).push(
                FieldView::Number { id: id@, label: label@, value: default, min, max },
            ),
            r.title == self.title,
            r.description == self.description,
            r.current_field == self.current_field,
            r.submitted == self.submitted,
            r.cancelled == self.cancelled,
    {
        let f = FormField::Number {
            id: id.to_string(),
            label: label.to_string(),
            value: default,
            min,
            max,
        };
        let r = self.field(f);
        assert(fields_view(r.fields@) =~= fields_view(self.fields@).push(f@));
        r
    }

    pub fn select(self, id: &str, label: &str, options: Vec<String>) -> (r: Self)
        ensures
            fields_view(r.fields@) == fields_view(self.fields@).push(
                FieldView::Select { id: id@, label: label@, options: strs(options@), selected: 0 },
            ),
            r.title == self.title,
            r.description == self.description,
            r.current_field == self.current_field,
            r.submitted == self.submitted,
            r.cancelled == self.cancelled,
    {
        let f = FormField::Select {
            id: id.to_string(),
            label: label.to_string(),
            options,
            selected: 0,
        };
        let r = self.field(f);
        assert(fields_view(r.fields@) =~= fields_view(self.fields@).push(f@));
        r
    }

    pub fn multi_select(self, id: &str, label: &str, options: Vec<String>) -> (r: Self)
        ensures
            fields_view(r.fields@) == fields_view(self.fields@).push(
                FieldView::MultiSelect {
                    id: id@,
                    label: label@,
                    options: strs(options@),
                    selected: seq![],
                },
            ),
            r.title == self.title,
            r.description == self.description,
            r.current_field == self.current_field,
            r.submitted == self.submitted,
            r.cancelled == self.cancelled,
    {
        let f = FormField::MultiSelect {
            id: id.to_string(),
            label: label.to_string(),
            options,
            selected: Vec::new(),
        };
        let r = self.field(f);
        assert(f@ == FieldView::MultiSelect {
            id: id@,
            label: label@,
            options: strs(options@),
            selected: seq![],
        });
        assert(fields_view(r.fields@) =~= fields_view(self.fields@).push(f@));
        r
    }

    pub fn checkbox(self, id: &str, label: &str) -> (r: Self)
        ensures
            fields_view(r.fields@) == fields_view(self.fields@).push(
                FieldView::Checkbox { id: id@, label: label@, checked: false },
            ),
            r.title == self.title,
            r.description == self.description,
            r.current_field == self.current_field,
            r.submitted == self.submitted,
            r.cancelled == self.cancelled,
    {
        let f = FormField::Checkbox { id: id.to_string(), label: label.to_string(), checked: false };
        let r = self.field(f);
        assert(fields_view(r.fields@) =~= fields_view(self.fields@).push(f@));
        r
    }

    pub fn path(self, id: &str, label: &str, kind: PathKind) -> (r: Self)
        ensures
            fields_view(r.fields@) == fields_view(self.fields@).push(
                FieldView::Path { id: id@, label: label@, value: seq![], kind },
            ),
            r.title == self.title,
            r.description == self.description,
            r.current_field == self.current_field,
            r.submitted == self.submitted,
            r.cancelled == self.cancelled,
    {
        let f = FormField::Path {
            id: id.to_string(),
            label: label.to_string(),
            value: String::new(),
            kind,
        };
        let r = self.field(f);
        assert(fields_view(r.fields@) =~= fields_view(self.fields@).push(f@));
        r
    }

    /// Navigate to next field (stays on the last one)
    pub fn next_field(&mut self)
        ensures
            final(self).current_field == next_index(old(self).current_field, old(self).fields@.len()),
            final(self).fields == old(self).fields,
            final(self).title == old(self).title,
            final(self).description == old(self).description,
            final(self).submitted == old(self).submitted,
            final(self).cancelled == old(self).cancelled,
    {
        if self.fields.len() > 0 && self.current_field < self.fields.len() - 1 {
            self.current_field = self.current_field + 1;
        }
    }

    /// Navigate to previous field (stays on the first one)
    pub fn prev_field(&mut self)
        ensures
            final(self).current_field == prev_index(old(self).current_field),
            final(self).fields == old(self).fields,
            final(self).title == old(self).title,
            final(self).description == old(self).description,
            final(self).submitted == old(self).submitted,
            final(self).cancelled == old(self).cancelled,
    {
        if self.current_field > 0 {
            self.current_field = self.current_field - 1;
        }
    }

    /// Get current field (mutable): edits through it change that field only.
    pub fn current_field_mut(&mut self) -> (r: Option<&mut FormField>)
        ensures
            old(self).current_field < old(self).fields@.len() ==> (r matches Some(f) && *f
                == old(self).fields@[old(self).current_field as int] && final(self).fields@ == old(
                self,
            ).fields@.update(old(self).current_field as int, *final(f)) && final(self).title == old(
                self,
            ).title && final(self).description == old(self).description
                && final(self).current_field == old(self).current_field && final(self).submitted
                == old(self).submitted && final(self).cancelled == old(self).cancelled),
            old(self).current_field >= old(self).fields@.len() ==> r is None && *final(self) == *old(
                self,
            ),
    {
        if self.current_field < self.fields.len() {
            let i = self.current_field;
            Some(&mut self.fields[i])
        } else {
            None
        }
    }

    /// Get current field (immutable)
    pub fn current_field_ref(&self) -> (r: Option<&FormField>)
        ensures
            self.current_field < self.fields@.len() ==> r == Some(&self.fields@[self.current_field as int]),
            self.current_field >= self.fields@.len() ==> r is None,
    {
        if self.current_field < self.fields.len() {
            Some(&self.fields[self.current_field])
        } else {
            None
        }
    }

    /// Validate all fields: the first error, in field order.
    pub fn validate(&self) -> (r: Result<(), FormError>)
        ensures
            r is Ok <==> form_verdict(fields_view(self.fields@)) is Ok,
            r matches Err(e) ==> form_verdict(fields_view(self.fields@)) == Err::<(), FormErrorView>(e@),
    {
        let mut i: usize = 0;
        while i < self.fields.len()
            invariant
                i <= self.fields@.len(),
                form_verdict(fields_view(self.fields@.subrange(0, i as int))) is Ok,
            decreases self.fields.len() - i,
        {
            let ghost pre = fields_view(self.fields@.subrange(0, i as int));
            assert(fields_view(self.fields@.subrange(0, i + 1)).drop_last() =~= pre);
            assert(fields_view(self.fields@.subrange(0, i + 1)).last() == self.fields@[i as int]@);
            match self.fields[i].validate() {
                Err(e) => {
                    proof {
                        assert(field_verdict(self.fields@[i as int]@) == Err::<(), FormErrorView>(e@));
                        assert(form_verdict(fields_view(self.fields@.subrange(0, i + 1)))
                            == field_verdict(self.fields@[i as int]@));
                        lemma_verdict_prefix(fields_view(self.fields@), i + 1);
                        assert(fields_view(self.fields@).subrange(0, i + 1) =~= fields_view(
                            self.fields@.subrange(0, i + 1),
                        ));
                    }
                    return Err(e);
                },
                Ok(()) => {},
            }
            i = i + 1;
        }
        assert(self.fields@.subrange(0, self.fields@.len() as int) =~= self.fields@);
        Ok(())
    }

    /// Extract all field values by id.
    pub fn values(&self) -> (r: Vec<(String, FormValue)>)
        ensures
            entries_view(r@) == form_values(fields_view(self.fields@)),
    {
        let mut values: Vec<(String, FormValue)> = Vec::new();
        let mut i: usize = 0;
        while i < self.fields.len()
            invariant
                i <= self.fields@.len(),
                entries_view(values@) == form_values(fields_view(self.fields@.subrange(0, i as int))),
            decreases self.fields.len() - i,
        {
            let ghost pre = fields_view(self.fields@.subrange(0, i as int));
            assert(fields_view(self.fields@.subrange(0, i + 1)).drop_last() =~= pre);
            let (id, value) = self.fields[i].get_value();
            upsert_exec(&mut values, id, value);
            i = i + 1;
        }
        assert(self.fields@.subrange(0, self.fields@.len() as int) =~= self.fields@);
        values
    }

    /// Submit the form: only after validation passes, which marks it
    /// submitted and gives its values; a refused form is left as it was.
    pub fn submit(&mut self) -> (r: Result<Vec<(String, FormValue)>, FormError>)
        ensures
            r is Ok <==> form_verdict(fields_view(old(self).fields@)) is Ok,
            r matches Err(e) ==> form_verdict(fields_view(old(self).fields@)) == Err::<
                (),
                FormErrorView,
            >(e@) && *final(self) == *old(self),
            r matches Ok(v) ==> entries_view(v@) == form_values(fields_view(old(self).fields@))
                && *final(self) == (Form { submitted: true, ..*old(self) }),
    {
        match self.validate() {
            Err(e) => Err(e),
            Ok(()) => {
                self.submitted = true;
                Ok(self.values())
            },
        }
    }

    /// Cancel the form
    pub fn cancel(&mut self)
        ensures
            *final(self) == (Form { cancelled: true, ..*old(self) }),
    {
        self.cancelled = true;
    }

    /// Check if form is done (submitted or cancelled)
    pub fn is_done(&self) -> (r: bool)
        ensures
            r == (self.submitted || self.cancelled),
    {
        self.submitted || self.cancelled
    }
}

/// The field after `cur` among `n` fields; the last field stays.
pub open spec fn next_index(cur: usize, n: nat) -> usize {
    if n > 0 && cur < n - 1 {
        (cur + 1) as usize
    } else {
        cur
    }
}

/// The field before `cur`; the first field stays.
pub open spec fn prev_index(cur: usize) -> usize {
    if cur > 0 {
        (cur - 1) as usize
    } else {
        cur
    }
}

/// Typing a character into a field and then pressing backspace leaves the field as it was.
pub proof fn law_backspace_undoes_char(f: FieldView, c: char)
    ensures
        after_backspace(after_char(f, c)) == f,
{
    match f {
        FieldView::TextInput { value, .. } => {
            assert(value.push(c).drop_last() =~= value);
        },
        FieldView::TextArea { value, .. } => {
            assert(value.push(c).drop_last() =~= value);
        },
        FieldView::Email { value, .. } => {
            assert(value.push(c).drop_last() =~= value);
        },
        _ => {},
    }
}

/// Pressing space twice on a checkbox, or on a multi-select with nothing
/// selected, leaves the field as it was.
pub proof fn law_space_twice(f: FieldView)
    requires
        f is Checkbox || (f matches FieldView::MultiSelect { selected, .. } && selected.len() == 0),
    ensures
        after_space(after_space(f)) == f,
{
    match f {
        FieldView::MultiSelect { selected, .. } => {
            assert(selected =~= Seq::<usize>::empty());
        },
        _ => {},
    }
}

/// Up then down leaves a number field as it was, and a select field whose
/// selection is neither the first option nor past the options.
pub proof fn law_down_undoes_up(f: FieldView)
    requires
        (f matches FieldView::Number { value, .. } && value < i64::MAX) || (
        f matches FieldView::Select { options, selected, .. } && 0 < selected && selected
            < options.len()),
    ensures
        can_go_down(after_up(f)),
        after_down(after_up(f)) == f,
{
}

/// Moving to the next field and back returns to the same field, unless it was the last.
pub proof fn law_prev_undoes_next(cur: usize, n: nat)
    requires
        cur + 1 < n <= usize::MAX,
    ensures
        prev_index(next_index(cur, n)) == cur,
{
}

/// Moving to the previous field and forward again returns to the same field,
/// unless it was the first.
pub proof fn law_next_undoes_prev(cur: usize, n: nat)
    requires
        0 < cur < n,
    ensures
        next_index(prev_index(cur), n) == cur,
{
}

pub proof fn lemma_verdict_prefix(fields: Seq<FieldView>, k: int)
    requires
        0 <= k <= fields.len(),
        form_verdict(fields.subrange(0, k)) is Err,
    ensures
        form_verdict(fields) == form_verdict(fields.subrange(0, k)),
    decreases fields.len() - k,
{
    if k < fields.len() {
        assert(fields.subrange(0, k + 1).drop_last() =~= fields.subrange(0, k));
        lemma_verdict_prefix(fields, k + 1);
    } else {
        assert(fields.subrange(0, k) =~= fields);
    }
}

} // verus!
