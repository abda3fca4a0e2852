//! Edit forms of the administration console: the values a form holds, and how the
//! target form is turned back into a target.
use vstd::prelude::*;
use crate::models::target::{target_error_text, target_failure, Target, ValidateError};
use crate::models::target_secret::{secret_error_text, secret_failure, Secret, ValidateError as SecretError};
use crate::models::user::{
    line_numbers, line_numbers_text, strings_view, user_error_text, user_failure, User, UserErrorView,
    ValidateError as UserError,
};
use crate::models::{masked, opt_str, StringArray};
use crate::text::{
    chars_to_string, decimal, decimal_of, parse_u64, push_all, str_chars, trim_chars, trim_spec,
    u64_of_text,
};

verus! {

broadcast use vstd::string::group_string_axioms;

/// The value of one field of a form.
pub enum FieldValue {
    Text(String),
    Checkbox(bool),
    Multiline(Vec<String>),
}

/// A labelled field of a form.
pub struct FormField {
    pub label: String,
    pub value: FieldValue,
    /// The character shown in place of each typed one, for hidden texts.
    pub mask: Option<char>,
}

impl FormField {
    /// A text field holding `value`, or nothing.
    pub fn text(label: &str, value: Option<String>) -> (f: Self)
        ensures
            f.label@ == label@,
            f.value is Text,
            value_text(f.value) == match value {
                Some(v) => v@,
                None => Seq::<char>::empty(),
            },
    {
        let v = match value {
            Some(v) => v,
            None => String::new(),
        };
        FormField { label: label.to_string(), value: FieldValue::Text(v), mask: None }
    }

    /// A text field whose characters are shown as `mask`.
    pub fn text_masked(label: &str, value: Option<String>, mask: char) -> (f: Self)
        ensures
            f.label@ == label@,
            f.value is Text,
            value_text(f.value) == match value {
                Some(v) => v@,
                None => Seq::<char>::empty(),
            },
            f.mask == Some(mask),
    {
        let v = match value {
            Some(v) => v,
            None => String::new(),
        };
        FormField { label: label.to_string(), value: FieldValue::Text(v), mask: Some(mask) }
    }

    /// A field of several lines, holding `lines` or nothing.
    pub fn multiline(label: &str, lines: Option<Vec<String>>) -> (f: Self)
        ensures
            f.label@ == label@,
            f.value is Multiline,
            value_lines(f.value) == match lines {
                Some(v) => v@,
                None => Seq::<String>::empty(),
            },
            f.mask is None,
    {
        let v = match lines {
            Some(v) => v,
            None => Vec::new(),
        };
        FormField { label: label.to_string(), value: FieldValue::Multiline(v), mask: None }
    }

    /// A checkbox.
    pub fn checkbox(label: &str, checked: bool) -> (f: Self)
        ensures
            f.label@ == label@,
            f.value == FieldValue::Checkbox(checked),
    {
        FormField { label: label.to_string(), value: FieldValue::Checkbox(checked), mask: None }
    }
}

/// The text of a field value, or the empty text for another kind of field.
pub open spec fn value_text(v: FieldValue) -> Seq<char> {
    match v {
        FieldValue::Text(t) => t@,
        _ => Seq::empty(),
    }
}

/// The lines of a field value, or none for another kind of field.
pub open spec fn value_lines(v: FieldValue) -> Seq<String> {
    match v {
        FieldValue::Multiline(l) => l@,
        _ => Seq::empty(),
    }
}

/// The lines of field `i`.
pub open spec fn field_lines(fields: Seq<FormField>, i: int) -> Seq<String> {
    value_lines(fields[i].value)
}

/// The text of field `i`, or the empty text if it is not a text field.
pub open spec fn field_text(fields: Seq<FormField>, i: int) -> Seq<char> {
    value_text(fields[i].value)
}

/// Whether field `i` is a ticked checkbox.
pub open spec fn field_checked(fields: Seq<FormField>, i: int) -> bool {
    match fields[i].value {
        FieldValue::Checkbox(b) => b,
        _ => false,
    }
}

/// A form: its fields, in order; whether it asks to confirm leaving without saving;
/// and the lines of the error that the last save gave, shown until dismissed.
pub struct FormEditor {
    pub fields: Vec<FormField>,
    pub show_cancel_confirmation: bool,
    pub save_error: Option<Vec<String>>,
}

/// What a key press on a form asks of the editor that owns it.
#[derive(Clone, Copy, Debug, PartialEq, Eq, Structural)]
pub enum FormEvent {
    /// Save the form.
    Save,
    /// Leave without saving.
    Cancel,
    /// Nothing to do.
    NoAction,
}

impl FormEditor {
    pub fn new(fields: Vec<FormField>) -> (f: Self)
        ensures
            f.fields@ == fields@,
            !f.show_cancel_confirmation,
            f.save_error is None,
    {
        FormEditor { fields, show_cancel_confirmation: false, save_error: None }
    }

    /// Shows `lines` as the error of the last save.
    pub fn set_save_error(&mut self, lines: Vec<String>)
        ensures
            *final(self) == (FormEditor { save_error: Some(lines), ..*old(self) }),
    {
        self.save_error = Some(lines);
    }

    /// The text of field `i`.
    pub fn get_text(&self, i: usize) -> (s: String)
        requires
            i < self.fields.len(),
        ensures
            s@ == field_text(self.fields@, i as int),
    {
        match &self.fields[i].value {
            FieldValue::Text(t) => t.clone(),
            _ => String::new(),
        }
    }

    /// Whether field `i` is ticked.
    pub fn get_checkbox(&self, i: usize) -> (b: bool)
        requires
            i < self.fields.len(),
        ensures
            b == field_checked(self.fields@, i as int),
    {
        match &self.fields[i].value {
            FieldValue::Checkbox(b) => *b,
            _ => false,
        }
    }

    /// Puts `text` in field `i` (what typing into the field does).
    pub fn set_text(&mut self, i: usize, text: String)
        requires
            i < old(self).fields.len(),
        ensures
            final(self).fields@.len() == old(self).fields@.len(),
            field_text(final(self).fields@, i as int) == text@,
            final(self).fields@[i as int].label == old(self).fields@[i as int].label,
            forall|j: int|
                0 <= j < old(self).fields@.len() && j != i ==> final(self).fields@[j] == old(
                    self,
                ).fields@[j],
            final(self).show_cancel_confirmation == old(self).show_cancel_confirmation,
            final(self).save_error == old(self).save_error,
    {
        let label = self.fields[i].label.clone();
        let mask = self.fields[i].mask;
        self.fields.set(i, FormField { label, value: FieldValue::Text(text), mask });
    }

    /// Ticks or clears field `i`.
    pub fn set_checkbox(&mut self, i: usize, checked: bool)
        requires
            i < old(self).fields.len(),
        ensures
            final(self).fields@.len() == old(self).fields@.len(),
            field_checked(final(self).fields@, i as int) == checked,
            final(self).fields@[i as int].label == old(self).fields@[i as int].label,
            forall|j: int|
                0 <= j < old(self).fields@.len() && j != i ==> final(self).fields@[j] == old(
                    self,
                ).fields@[j],
            final(self).show_cancel_confirmation == old(self).show_cancel_confirmation,
            final(self).save_error == old(self).save_error,
    {
        let label = self.fields[i].label.clone();
        let mask = self.fields[i].mask;
        self.fields.set(i, FormField { label, value: FieldValue::Checkbox(checked), mask });
    }

    /// The lines of field `i`.
    pub fn get_multiline(&self, i: usize) -> (l: Vec<String>)
        requires
            i < self.fields.len(),
        ensures
            l@ == field_lines(self.fields@, i as int),
    {
        match &self.fields[i].value {
            FieldValue::Multiline(l) => clone_lines(l),
            _ => Vec::new(),
        }
    }

    /// Puts `lines` in field `i`.
    pub fn set_lines(&mut self, i: usize, lines: Vec<String>)
        requires
            i < old(self).fields.len(),
        ensures
            final(self).fields@.len() == old(self).fields@.len(),
            field_lines(final(self).fields@, i as int) == lines@,
            final(self).fields@[i as int].label == old(self).fields@[i as int].label,
            forall|j: int|
                0 <= j < old(self).fields@.len() && j != i ==> final(self).fields@[j] == old(
                    self,
                ).fields@[j],
            final(self).show_cancel_confirmation == old(self).show_cancel_confirmation,
            final(self).save_error == old(self).save_error,
    {
        let label = self.fields[i].label.clone();
        let mask = self.fields[i].mask;
        self.fields.set(i, FormField { label, value: FieldValue::Multiline(lines), mask });
    }
}

fn clone_lines(v: &Vec<String>) -> (r: Vec<String>)
    ensures
        r@ == v@,
{
    let mut r: Vec<String> = Vec::new();
    let mut i: usize = 0;
    while i < v.len()
        invariant
            i <= v.len(),
            r@ == v@.take(i as int),
        decreases v.len() - i,
    {
        r.push(v[i].clone());
        i = i + 1;
    }
    assert(v@.take(v.len() as int) =~= v@);
    r
}

/// Positions of the target form's fields.
pub const F_NAME: usize = 0;
pub const F_HOSTNAME: usize = 1;
pub const F_PORT: usize = 2;
pub const F_SERVER_PUBLIC_KEY: usize = 3;
pub const F_DESCRIPTION: usize = 4;
pub const F_IS_ACTIVE: usize = 5;

/// The form for editing a target, with the target it edits.
pub struct TargetEditor {
    pub target: Target,
    pub form: FormEditor,
}

/// The port accepted from the form: a number from 1 to 65535.
pub open spec fn port_of_text(s: Seq<char>) -> Result<u16, ValidateError> {
    match u64_of_text(trim_spec(s)) {
        Some(p) => if 1 <= p <= 65535 {
            Ok(p as u16)
        } else {
            Err(ValidateError::PortInvalid)
        },
        None => Err(ValidateError::PortNotNumber),
    }
}

/// The description kept from the form: the trimmed text, or none if that is empty.
pub open spec fn description_of_text(s: Seq<char>) -> Option<Seq<char>> {
    if trim_spec(s).len() == 0 {
        None
    } else {
        Some(trim_spec(s))
    }
}

/// What a save of the target form leaves in the target `t` and returns: the name and
/// host name trimmed; when the port is refused, that error and nothing more copied;
/// else the port, the trimmed key, the description (none when empty), whether it is
/// active, and the first check the target fails, if any.
pub open spec fn target_saved(before: TargetEditor, t: Target, r: Result<(), ValidateError>) -> bool {
    let fields = before.form.fields@;
    &&& t.id == before.target.id
    &&& t.updated_by == before.target.updated_by
    &&& t.updated_at == before.target.updated_at
    &&& t.name@ == trim_spec(field_text(fields, F_NAME as int))
    &&& t.hostname@ == trim_spec(field_text(fields, F_HOSTNAME as int))
    &&& match port_of_text(field_text(fields, F_PORT as int)) {
        Err(e) => {
            &&& r == Err::<(), ValidateError>(e)
            &&& t.port == before.target.port
            &&& t.server_public_key == before.target.server_public_key
            &&& t.description == before.target.description
            &&& t.is_active == before.target.is_active
        },
        Ok(p) => {
            &&& t.port == p
            &&& t.server_public_key@ == trim_spec(field_text(fields, F_SERVER_PUBLIC_KEY as int))
            &&& opt_text(t.description) == description_of_text(field_text(fields, F_DESCRIPTION as int))
            &&& t.is_active == field_checked(fields, F_IS_ACTIVE as int)
            &&& match r {
                Ok(()) => target_failure(t.name@, t.hostname@, t.server_public_key@) is None,
                Err(e) => target_failure(t.name@, t.hostname@, t.server_public_key@) == Some(e),
            }
        },
    }
}

impl TargetEditor {
    /// A form showing `target`: name, host name, port, server key, description and
    /// whether it is active.
    pub fn new(target: Target) -> (e: Self)
        ensures
            e.target == target,
            e.form.fields@.len() == 6,
            field_text(e.form.fields@, F_NAME as int) == target.name@,
            field_text(e.form.fields@, F_HOSTNAME as int) == target.hostname@,
            field_text(e.form.fields@, F_PORT as int) == decimal(target.port as nat),
            field_text(e.form.fields@, F_SERVER_PUBLIC_KEY as int) == target.server_public_key@,
            field_text(e.form.fields@, F_DESCRIPTION as int) == match target.description {
                Some(d) => d@,
                None => Seq::<char>::empty(),
            },
            field_checked(e.form.fields@, F_IS_ACTIVE as int) == target.is_active,
            e.form.fields@[F_IS_ACTIVE as int].value is Checkbox,
    {
        let port = chars_to_string(&decimal_of(target.port as u64));
        let desc = match &target.description {
            Some(d) => Some(d.clone()),
            None => None,
        };
        let fields = vec![
            FormField::text("*Name*", Some(target.name.clone())),
            FormField::text("*Hostname*", Some(target.hostname.clone())),
            FormField::text("*Port*", Some(port)),
            FormField::text("*Server Public Key*", Some(target.server_public_key.clone())),
            FormField::text("Description", desc),
            FormField::checkbox("Is Active", target.is_active),
        ];
        TargetEditor { target, form: FormEditor::new(fields) }
    }

    /// Copies the form into the target: name and host name trimmed, the port (which
    /// must be a number from 1 to 65535), the server key trimmed, the description
    /// (none when empty) and whether it is active; then checks the target. When the
    /// port is refused, only the name and host name have been copied.
    pub fn save_target(&mut self) -> (r: Result<(), ValidateError>)
        requires
            old(self).form.fields.len() == 6,
        ensures
            final(self).form == old(self).form,
            target_saved(*old(self), final(self).target, r),
    {
        let name = trim_chars(&str_chars(self.form.get_text(F_NAME).as_str()));
        self.target.name = chars_to_string(&name);
        let hostname = trim_chars(&str_chars(self.form.get_text(F_HOSTNAME).as_str()));
        self.target.hostname = chars_to_string(&hostname);
        let port_text = trim_chars(&str_chars(self.form.get_text(F_PORT).as_str()));
        let port: u16 = match parse_u64(&port_text) {
            Some(p) => {
                if 1 <= p && p <= 65535 {
                    p as u16
                } else {
                    return Err(ValidateError::PortInvalid);
                }
            },
            None => {
                return Err(ValidateError::PortNotNumber);
            },
        };
        self.target.port = port;
        let key = trim_chars(&str_chars(self.form.get_text(F_SERVER_PUBLIC_KEY).as_str()));
        self.target.server_public_key = chars_to_string(&key);
        let desc = trim_chars(&str_chars(self.form.get_text(F_DESCRIPTION).as_str()));
        self.target.description = if desc.len() == 0 {
            None
        } else {
            Some(chars_to_string(&desc))
        };
        self.target.is_active = self.form.get_checkbox(F_IS_ACTIVE);
        self.target.validate()
    }

    /// Acts on what a key press on the form asks: a save copies the form into the
    /// target and, when the target is refused, shows why and stays open; a cancel asks
    /// to confirm leaving. Returns whether the editor is done with the key.
    pub fn handle_form_event(&mut self, event: FormEvent) -> (close: bool)
        requires
            old(self).form.fields.len() == 6,
        ensures
            match event {
                FormEvent::NoAction => !close && *final(self) == *old(self),
                FormEvent::Cancel => close && *final(self) == (TargetEditor {
                    form: FormEditor { show_cancel_confirmation: true, ..old(self).form },
                    ..*old(self)
                }),
                FormEvent::Save => exists|r: Result<(), ValidateError>|
                    {
                        &&& #[trigger] target_saved(*old(self), final(self).target, r)
                        &&& close == r is Ok
                        &&& final(self).form == (FormEditor { save_error: final(self).form.save_error, ..old(self).form })
                        &&& match r {
                            Ok(()) => final(self).form.save_error == old(self).form.save_error,
                            Err(e) => final(self).form.save_error matches Some(lines) && strings_view(lines@)
                                == seq![target_error_text(e)],
                        }
                    },
            },
    {
        match event {
            FormEvent::Save => {
                let r = self.save_target();
                match r {
                    Ok(()) => true,
                    Err(e) => {
                        let lines = vec![e.message()];
                        assert(strings_view(lines@) =~= seq![target_error_text(e)]);
                        self.form.set_save_error(lines);
                        false
                    },
                }
            },
            FormEvent::Cancel => {
                self.form.show_cancel_confirmation = true;
                true
            },
            FormEvent::NoAction => false,
        }
    }
}

// ---------------------------------------------------------------------------
// Users
// ---------------------------------------------------------------------------

/// Positions of the user form's fields.
pub const F_USERNAME: usize = 0;
pub const F_EMAIL: usize = 1;
pub const F_GENERATE_PASSWORD: usize = 2;
pub const F_FORCE_INIT_PASS: usize = 3;
pub const F_USER_IS_ACTIVE: usize = 4;
pub const F_AUTHORIZED_KEYS: usize = 5;

/// The form for editing a user, with the user it edits and whether a new password is
/// to be generated.
pub struct UserEditor {
    pub user: User,
    pub form: FormEditor,
    pub generate_password: bool,
}

/// The lines kept as authorized keys: each trimmed, the empty ones left out.
pub open spec fn kept_lines(lines: Seq<String>) -> Seq<Seq<char>>
    decreases lines.len(),
{
    if lines.len() == 0 {
        Seq::empty()
    } else {
        let t = trim_spec(lines.last()@);
        if t.len() == 0 {
            kept_lines(lines.drop_last())
        } else {
            kept_lines(lines.drop_last()).push(t)
        }
    }
}

fn trimmed_string(s: &String) -> (r: String)
    ensures
        r@ == trim_spec(s@),
{
    chars_to_string(&trim_chars(&str_chars(s.as_str())))
}

/// The lines kept when a multi-line field is committed: each trimmed, the empty ones
/// left out.
pub fn keep_lines(lines: &Vec<String>) -> (r: Vec<String>)
    ensures
        strings_view(r@) == kept_lines(lines@),
{
    let mut r: Vec<String> = Vec::new();
    let mut i: usize = 0;
    while i < lines.len()
        invariant
            i <= lines.len(),
            strings_view(r@) == kept_lines(lines@.take(i as int)),
        decreases lines.len() - i,
    {
        let t = trimmed_string(&lines[i]);
        assert(lines@.take((i + 1) as int).drop_last() =~= lines@.take(i as int));
        assert(lines@.take((i + 1) as int).last() == lines@[i as int]);
        if t.as_str().is_empty() {
        } else {
            let ghost before = r@;
            r.push(t);
            assert(strings_view(r@) =~= strings_view(before).push(t@));
        }
        i = i + 1;
    }
    assert(lines@.take(lines.len() as int) =~= lines@);
    r
}

/// What a save of the user form leaves in the editor and returns: the user's name and
/// e-mail trimmed (no e-mail when empty), the check boxes, the authorized keys (each
/// line trimmed, empty lines dropped, none when no line is left) also shown back in
/// the form, and the first check the user fails, if any.
pub open spec fn user_saved(before: UserEditor, after: UserEditor, r: Result<(), UserError>) -> bool {
    let fields = before.form.fields@;
    let keys = kept_lines(field_lines(fields, F_AUTHORIZED_KEYS as int));
    let u = after.user;
    &&& u.id == before.user.id
    &&& u.password_hash == before.user.password_hash
    &&& u.updated_by == before.user.updated_by
    &&& u.updated_at == before.user.updated_at
    &&& u.username@ == trim_spec(field_text(fields, F_USERNAME as int))
    &&& opt_str(u.email) == description_of_text(field_text(fields, F_EMAIL as int))
    &&& after.generate_password == field_checked(fields, F_GENERATE_PASSWORD as int)
    &&& u.force_init_pass == field_checked(fields, F_FORCE_INIT_PASS as int)
    &&& u.is_active == field_checked(fields, F_USER_IS_ACTIVE as int)
    &&& u.keys() == if keys.len() == 0 {
        None
    } else {
        Some(keys)
    }
    &&& after.form.fields@.len() == 6
    &&& strings_view(field_lines(after.form.fields@, F_AUTHORIZED_KEYS as int))
        == keys
    &&& forall|j: int|
        0 <= j < 6 && j != F_AUTHORIZED_KEYS ==> after.form.fields@[j] == fields[j]
    &&& match r {
        Ok(()) => user_failure(u.username@, opt_str(u.email), u.keys()) is None,
        Err(e) => user_failure(u.username@, opt_str(u.email), u.keys()) == Some(e.view()),
    }
    &&& after.form.show_cancel_confirmation == before.form.show_cancel_confirmation
    &&& after.form.save_error == before.form.save_error
    &&& r matches Err(UserError::AuthorizedKeyInvalid(v)) ==> forall|j: int| 0 <= j < v@.len() ==> v@[j] < usize::MAX
}

/// The lines shown when a save of the user form is refused: for keys that are not
/// OpenSSH keys, a title and their line numbers; else the error's message.
pub open spec fn user_error_lines(e: UserErrorView) -> Seq<Seq<char>> {
    match e {
        UserErrorView::AuthorizedKeyInvalid(v) => seq![
            "Invalid authorized keys"@,
            "Line number: "@ + line_numbers_text(v),
        ],
        _ => seq![user_error_text(e)],
    }
}

impl UserEditor {
    /// The editor with `err` in place of its form's save error.
    pub open spec fn with_error(self, err: Option<Vec<String>>) -> Self {
        UserEditor { form: FormEditor { save_error: err, ..self.form }, ..self }
    }
}

impl UserEditor {
    /// A form showing `user`: name, e-mail, "generate a new password" (not ticked),
    /// whether a new password is due, whether active, and the authorized keys.
    pub fn new(user: User) -> (e: Self)
        ensures
            e.user == user,
            !e.generate_password,
            e.form.fields@.len() == 6,
            field_text(e.form.fields@, F_USERNAME as int) == user.username@,
            field_text(e.form.fields@, F_EMAIL as int) == match user.email {
                Some(m) => m@,
                None => Seq::<char>::empty(),
            },
            !field_checked(e.form.fields@, F_GENERATE_PASSWORD as int),
            field_checked(e.form.fields@, F_FORCE_INIT_PASS as int) == user.force_init_pass,
            field_checked(e.form.fields@, F_USER_IS_ACTIVE as int) == user.is_active,
            strings_view(field_lines(e.form.fields@, F_AUTHORIZED_KEYS as int)) == match user.keys() {
                Some(k) => k,
                None => Seq::<Seq<char>>::empty(),
            },
    {
        let email = match &user.email {
            Some(m) => Some(m.clone()),
            None => None,
        };
        let keys = user.get_authorized_keys();
        let fields = vec![
            FormField::text("*Username*", Some(user.username.clone())),
            FormField::text("Email", email),
            FormField::checkbox("Generate New Password", false),
            FormField::checkbox("Force Init Password", user.force_init_pass),
            FormField::checkbox("Is Active", user.is_active),
            FormField::multiline("Authorized Keys (one per line)", keys),
        ];
        UserEditor { user, form: FormEditor::new(fields), generate_password: false }
    }

    /// Copies the form into the user: the name trimmed, the e-mail trimmed (none when
    /// empty), the three check boxes, and the authorized keys (each line trimmed, empty
    /// lines dropped, none when no line is left; the form then shows the kept lines);
    /// then checks the user.
    pub fn save_user(&mut self) -> (r: Result<(), UserError>)
        requires
            old(self).form.fields.len() == 6,
        ensures
            user_saved(*old(self), *final(self), r),
    {
        self.user.username = trimmed_string(&self.form.get_text(F_USERNAME));
        let email = trimmed_string(&self.form.get_text(F_EMAIL));
        self.user.email = if email.as_str().is_empty() {
            None
        } else {
            Some(email)
        };
        self.generate_password = self.form.get_checkbox(F_GENERATE_PASSWORD);
        self.user.force_init_pass = self.form.get_checkbox(F_FORCE_INIT_PASS);
        self.user.is_active = self.form.get_checkbox(F_USER_IS_ACTIVE);
        let lines = self.form.get_multiline(F_AUTHORIZED_KEYS);
        let keys = keep_lines(&lines);
        self.form.set_lines(F_AUTHORIZED_KEYS, clone_lines(&keys));
        let n = keys.len();
        self.user.set_authorized_keys(if n == 0 {
            None
        } else {
            Some(keys)
        });
        self.user.validate()
    }

    /// Acts on what a key press on the form asks: a save copies the form into the
    /// user and, when the user is refused, shows why and stays open (for keys that are
    /// not OpenSSH keys, their line numbers); a cancel asks to confirm leaving. Returns
    /// whether the editor is done with the key.
    pub fn handle_form_event(&mut self, event: FormEvent) -> (close: bool)
        requires
            old(self).form.fields.len() == 6,
        ensures
            match event {
                FormEvent::NoAction => !close && *final(self) == *old(self),
                FormEvent::Cancel => close && *final(self) == (UserEditor {
                    form: FormEditor { show_cancel_confirmation: true, ..old(self).form },
                    ..*old(self)
                }),
                FormEvent::Save => exists|r: Result<(), UserError>|
                    {
                        &&& #[trigger] user_saved(*old(self), final(self).with_error(old(self).form.save_error), r)
                        &&& close == r is Ok
                        &&& match r {
                            Ok(()) => final(self).form.save_error == old(self).form.save_error,
                            Err(e) => final(self).form.save_error matches Some(lines) && strings_view(lines@)
                                == user_error_lines(e.view()),
                        }
                    },
            },
    {
        match event {
            FormEvent::Save => {
                let r = self.save_user();
                match r {
                    Ok(()) => true,
                    Err(e) => {
                        let lines = match &e {
                            UserError::AuthorizedKeyInvalid(idx) => {
                                let mut l = str_chars("Line number: ");
                                push_all(&mut l, &line_numbers(idx));
                                vec!["Invalid authorized keys".to_string(), chars_to_string(&l)]
                            },
                            _ => vec![e.message()],
                        };
                        assert(strings_view(lines@) =~= user_error_lines(e.view()));
                        self.form.set_save_error(lines);
                        false
                    },
                }
            },
            FormEvent::Cancel => {
                self.form.show_cancel_confirmation = true;
                true
            },
            FormEvent::NoAction => false,
        }
    }
}

// ---------------------------------------------------------------------------
// Secrets
// ---------------------------------------------------------------------------

/// Positions of the secret form's fields.
pub const F_SECRET_NAME: usize = 0;
pub const F_USER: usize = 1;
pub const F_PASSWORD: usize = 2;
pub const F_SECRET_IS_ACTIVE: usize = 3;
pub const F_PRIVATE_KEY: usize = 4;

/// The form for editing a secret, with the secret it edits and whether its password
/// and private key were changed.
pub struct SecretEditor {
    pub secret: Secret,
    pub form: FormEditor,
    pub private_key_updated: bool,
    pub password_updated: bool,
}

/// Lines joined with line feeds.
pub open spec fn joined(lines: Seq<Seq<char>>) -> Seq<char>
    decreases lines.len(),
{
    if lines.len() == 0 {
        Seq::empty()
    } else if lines.len() == 1 {
        lines[0]
    } else {
        joined(lines.drop_last()) + seq!['\n'] + lines.last()
    }
}

fn join_lines(lines: &Vec<String>) -> (s: String)
    ensures
        s@ == joined(strings_view(lines@)),
{
    let mut v: Vec<char> = Vec::new();
    let mut i: usize = 0;
    while i < lines.len()
        invariant
            i <= lines.len(),
            v@ == joined(strings_view(lines@.take(i as int))),
        decreases lines.len() - i,
    {
        let ghost prev = strings_view(lines@.take(i as int));
        assert(strings_view(lines@.take((i + 1) as int)) =~= prev.push(lines@[i as int]@));
        assert(strings_view(lines@.take((i + 1) as int)).drop_last() =~= prev);
        if i > 0 {
            v.push('\n');
        }
        push_all(&mut v, &str_chars(lines[i].as_str()));
        proof {
            if i == 0 {
                assert(v@ =~= lines@[0]@);
            }
        }
        i = i + 1;
    }
    assert(lines@.take(lines.len() as int) =~= lines@);
    chars_to_string(&v)
}

/// What a save of the secret form leaves in the editor and returns: name and account
/// trimmed; the password when the trimmed field differs from the placeholder (removed
/// when empty); whether active; the private key when the trimmed lines differ from the
/// placeholder (removed with the public key when empty); and the first check the
/// secret fails, the private key checked only when it was changed now or before.
pub open spec fn secret_saved(before: SecretEditor, after: SecretEditor, r: Result<(), SecretError>) -> bool {
    let fields = before.form.fields@;
    let old_s = before.secret;
    let s = after.secret;
    let pw = trim_spec(field_text(fields, F_PASSWORD as int));
    let pw_changed = pw != masked(old_s.password is Some);
    let pk = trim_spec(joined(strings_view(field_lines(fields, F_PRIVATE_KEY as int))));
    let pk_changed = pk != masked(old_s.private_key is Some);
    &&& after.form == before.form
    &&& s.id == old_s.id
    &&& s.updated_by == old_s.updated_by
    &&& s.updated_at == old_s.updated_at
    &&& s.name@ == trim_spec(field_text(fields, F_SECRET_NAME as int))
    &&& s.user@ == trim_spec(field_text(fields, F_USER as int))
    &&& s.is_active == field_checked(fields, F_SECRET_IS_ACTIVE as int)
    &&& opt_str(s.password) == if !pw_changed {
        opt_str(old_s.password)
    } else if pw.len() == 0 {
        None
    } else {
        Some(pw)
    }
    &&& after.password_updated == (before.password_updated || pw_changed)
    &&& opt_str(s.private_key) == if !pk_changed {
        opt_str(old_s.private_key)
    } else if pk.len() == 0 {
        None
    } else {
        Some(pk)
    }
    &&& s.public_key == if pk_changed && pk.len() == 0 {
        None
    } else {
        old_s.public_key
    }
    &&& after.private_key_updated == (before.private_key_updated || pk_changed)
    &&& match r {
        Ok(()) => secret_failure(
            s.name@,
            s.user@,
            opt_str(s.private_key),
            after.private_key_updated,
        ) is None,
        Err(e) => secret_failure(
            s.name@,
            s.user@,
            opt_str(s.private_key),
            after.private_key_updated,
        ) == Some(e),
    }
}

impl SecretEditor {
    /// The editor with `err` in place of its form's save error.
    pub open spec fn with_error(self, err: Option<Vec<String>>) -> Self {
        SecretEditor { form: FormEditor { save_error: err, ..self.form }, ..self }
    }
}

impl SecretEditor {
    /// A form showing `secret`: name, account, the password and private key as
    /// placeholders (`********` when present), and whether it is active.
    pub fn new(secret: Secret) -> (e: Self)
        ensures
            e.secret == secret,
            !e.private_key_updated,
            !e.password_updated,
            e.form.fields@.len() == 5,
            field_text(e.form.fields@, F_SECRET_NAME as int) == secret.name@,
            field_text(e.form.fields@, F_USER as int) == secret.user@,
            field_text(e.form.fields@, F_PASSWORD as int) == masked(secret.password is Some),
            e.form.fields@[F_PASSWORD as int].mask == Some('*'),
            field_checked(e.form.fields@, F_SECRET_IS_ACTIVE as int) == secret.is_active,
            strings_view(field_lines(e.form.fields@, F_PRIVATE_KEY as int)) == seq![
                masked(secret.private_key is Some),
            ],
    {
        let pk = vec![secret.print_private_key()];
        let fields = vec![
            FormField::text("*Name*", Some(secret.name.clone())),
            FormField::text("*User*", Some(secret.user.clone())),
            FormField::text_masked("Password", Some(secret.print_password()), '*'),
            FormField::checkbox("Is Active", secret.is_active),
            FormField::multiline("Private Key", Some(pk)),
        ];
        let e = SecretEditor {
            secret,
            form: FormEditor::new(fields),
            private_key_updated: false,
            password_updated: false,
        };
        assert(strings_view(field_lines(e.form.fields@, F_PRIVATE_KEY as int)) =~= seq![
            masked(e.secret.private_key is Some),
        ]);
        e
    }

    /// Copies the form into the secret: name and account trimmed; the password, when
    /// the trimmed field differs from the placeholder (removed when empty); whether it
    /// is active; the private key, when the trimmed lines differ from the placeholder
    /// (removed with the public key when empty). Then checks the secret, the private
    /// key only when it was changed now or before.
    pub fn save_secret(&mut self) -> (r: Result<(), SecretError>)
        requires
            old(self).form.fields.len() == 5,
        ensures
            secret_saved(*old(self), *final(self), r),
    {
        self.secret.name = trimmed_string(&self.form.get_text(F_SECRET_NAME));
        self.secret.user = trimmed_string(&self.form.get_text(F_USER));
        let password = trimmed_string(&self.form.get_text(F_PASSWORD));
        let shown = self.secret.print_password();
        if password != shown {
            if password.as_str().is_empty() {
                let _ = self.secret.take_password();
            } else {
                self.secret.set_password(Some(password));
            }
            self.password_updated = true;
        }
        self.secret.is_active = self.form.get_checkbox(F_SECRET_IS_ACTIVE);
        let lines = self.form.get_multiline(F_PRIVATE_KEY);
        let private_key = trimmed_string(&join_lines(&lines));
        let shown_key = self.secret.print_private_key();
        if private_key != shown_key {
            if private_key.as_str().is_empty() {
                let _ = self.secret.take_private_key();
                let _ = self.secret.take_public_key();
            } else {
                self.secret.set_private_key(Some(private_key));
            }
            self.private_key_updated = true;
        }
        self.secret.validate(self.private_key_updated)
    }

    /// Acts on what a key press on the form asks: a save copies the form into the
    /// secret and, when the secret is refused, shows why and stays open; a cancel asks
    /// to confirm leaving. Returns whether the editor is done with the key.
    pub fn handle_form_event(&mut self, event: FormEvent) -> (close: bool)
        requires
            old(self).form.fields.len() == 5,
        ensures
            match event {
                FormEvent::NoAction => !close && *final(self) == *old(self),
                FormEvent::Cancel => close && *final(self) == (SecretEditor {
                    form: FormEditor { show_cancel_confirmation: true, ..old(self).form },
                    ..*old(self)
                }),
                FormEvent::Save => exists|r: Result<(), SecretError>|
                    {
                        &&& #[trigger] secret_saved(*old(self), final(self).with_error(old(self).form.save_error), r)
                        &&& close == r is Ok
                        &&& match r {
                            Ok(()) => final(self).form.save_error == old(self).form.save_error,
                            Err(e) => final(self).form.save_error matches Some(lines) && strings_view(lines@)
                                == seq![secret_error_text(e)],
                        }
                    },
            },
    {
        match event {
            FormEvent::Save => {
                let r = self.save_secret();
                match r {
                    Ok(()) => true,
                    Err(e) => {
                        let lines = vec![e.message()];
                        assert(strings_view(lines@) =~= seq![secret_error_text(e)]);
                        self.form.set_save_error(lines);
                        false
                    },
                }
            },
            FormEvent::Cancel => {
                self.form.show_cancel_confirmation = true;
                true
            },
            FormEvent::NoAction => false,
        }
    }
}

pub open spec fn opt_text(s: Option<String>) -> Option<Seq<char>> {
    match s {
        Some(t) => Some(t@),
        None => None,
    }
}

/// Opening a target in its form and saving it at once gives back the same port,
/// whatever the port was: the form shows the port in decimal and reads it back.
pub proof fn law_port_round_trip(port: u16)
    requires
        port >= 1,
    ensures
        port_of_text(decimal(port as nat)) == Ok::<u16, ValidateError>(port),
{
    lemma_decimal_digits(port as nat);
    lemma_decimal_trimmed(port as nat);
}

proof fn lemma_decimal_digits(n: nat)
    ensures
        decimal(n).len() > 0,
        all_digits_text(decimal(n)),
        crate::text::digits_value(decimal(n)) == n,
        decimal(n)[0] != '+',
    decreases n,
{
    let c = crate::text::digit_char(n % 10);
    assert((c as u32) == 48 + n % 10) by {
        let u: u32 = (48 + n % 10) as u32;
        vstd::utf8::char_u32_cast(c, c as u32);
    }
    if n < 10 {
        assert(decimal(n) =~= seq![c]);
        assert(decimal(n).drop_last() =~= Seq::<char>::empty());
        assert(crate::text::digits_value(Seq::<char>::empty()) == 0);
        assert(decimal(n).last() == c);
        assert(crate::text::digits_value(decimal(n)) == n);
    } else {
        lemma_decimal_digits(n / 10);
        let d = decimal(n / 10);
        assert(decimal(n) == d.push(c));
        assert(decimal(n).drop_last() =~= d);
        assert forall|i: int| 0 <= i < decimal(n).len() implies crate::text::is_ascii_digit_spec(
            #[trigger] decimal(n)[i],
        ) by {
            if i < d.len() {
                assert(decimal(n)[i] == d[i]);
            }
        }
    }
}

pub open spec fn all_digits_text(s: Seq<char>) -> bool {
    crate::text::all_digits(s)
}

proof fn lemma_decimal_trimmed(n: nat)
    ensures
        trim_spec(decimal(n)) == decimal(n),
{
    lemma_decimal_digits(n);
    let d = decimal(n);
    assert(crate::text::is_ascii_digit_spec(d[0]));
    assert(crate::text::is_ascii_digit_spec(d[d.len() - 1]));
    assert(!crate::text::is_white_space(d[0]));
    assert(!crate::text::is_white_space(d.last()));
}

} // verus!
