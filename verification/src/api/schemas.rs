//! Request schemas, and the validation of the fields they are built from.

use vstd::prelude::*;

use crate::errors::FieldFormatError;
use crate::text::chars_of;
use super::types::{AllowedMention, Component, Embed, MessageReference, PartialDiscordFileAttachment, same_metadata};
use std::collections::HashMap;


verus! {

pub open spec fn is_ascii_alpha(c: char) -> bool {
    ('a' <= c && c <= 'z') || ('A' <= c && c <= 'Z')
}

pub open spec fn is_ascii_digit(c: char) -> bool {
    '0' <= c && c <= '9'
}

/// A character of the local part of an address: `[a-zA-Z0-9._%+-]`.
pub open spec fn is_local_char(c: char) -> bool {
    is_ascii_alpha(c) || is_ascii_digit(c) || c == '.' || c == '_' || c == '%' || c == '+'
        || c == '-'
}

/// A character of the domain part of an address: `[a-zA-Z0-9.-]`.
pub open spec fn is_domain_char(c: char) -> bool {
    is_ascii_alpha(c) || is_ascii_digit(c) || c == '.' || c == '-'
}

pub open spec fn local_run(s: Seq<char>, lo: int, hi: int) -> bool {
    forall|i: int| lo <= i < hi ==> #[trigger] is_local_char(s[i])
}

pub open spec fn domain_run(s: Seq<char>, lo: int, hi: int) -> bool {
    forall|i: int| lo <= i < hi ==> #[trigger] is_domain_char(s[i])
}

pub open spec fn alpha_run(s: Seq<char>, lo: int, hi: int) -> bool {
    forall|i: int| lo <= i < hi ==> #[trigger] is_ascii_alpha(s[i])
}

/// `s` splits as local part, `@`, domain, `.` and top-level domain at positions `at` and
/// `dot`, as the pattern `^[a-zA-Z0-9._%+-]+@[a-zA-Z0-9.-]+\.[a-zA-Z]{2,}$` requires.
pub open spec fn email_split(s: Seq<char>, at: int, dot: int) -> bool {
    &&& 0 < at
    &&& at + 1 < dot
    &&& dot + 3 <= s.len()
    &&& s[at] == '@'
    &&& s[dot] == '.'
    &&& local_run(s, 0, at)
    &&& domain_run(s, at + 1, dot)
    &&& alpha_run(s, dot + 1, s.len() as int)
}

/// The whole of `s` matches `^[a-zA-Z0-9._%+-]+@[a-zA-Z0-9.-]+\.[a-zA-Z]{2,}$`.
pub open spec fn is_well_formed_email(s: Seq<char>) -> bool {
    exists|at: int, dot: int| email_split(s, at, dot)
}

fn is_ascii_alpha_exec(c: char) -> (res: bool)
    ensures
        res == is_ascii_alpha(c),
{
    ('a' <= c && c <= 'z') || ('A' <= c && c <= 'Z')
}

fn is_ascii_digit_exec(c: char) -> (res: bool)
    ensures
        res == is_ascii_digit(c),
{
    '0' <= c && c <= '9'
}

fn is_local_char_exec(c: char) -> (res: bool)
    ensures
        res == is_local_char(c),
{
    is_ascii_alpha_exec(c) || is_ascii_digit_exec(c) || c == '.' || c == '_' || c == '%' || c
        == '+' || c == '-'
}

fn is_domain_char_exec(c: char) -> (res: bool)
    ensures
        res == is_domain_char(c),
{
    is_ascii_alpha_exec(c) || is_ascii_digit_exec(c) || c == '.' || c == '-'
}

/// Whether `s` is a well-formed e-mail address in the sense of [`is_well_formed_email`].
pub fn matches_email_pattern(s: &str) -> (res: bool)
    ensures
        res == is_well_formed_email(s@),
{
    let cs = chars_of(s);
    let n = cs.len();
    let ghost sq = cs@;
    // The local part is the longest prefix of local characters; `@` is not one of them.
    let mut at: usize = 0;
    while at < n && is_local_char_exec(cs[at])
        invariant
            at <= n,
            n == sq.len(),
            cs@ == sq,
            sq == s@,
            local_run(sq, 0, at as int),
        decreases n - at,
    {
        at = at + 1;
    }
    if at == 0 || at >= n || cs[at] != '@' {
        proof {
            if is_well_formed_email(sq) {
                let (a, d) = choose|a: int, d: int| email_split(sq, a, d);
                if a < at {
                    assert(is_local_char(sq[a]));
                }
                if at < a {
                    assert(is_local_char(sq[at as int]));
                }
            }
        }
        return false;
    }
    // After `@`, every character must be a domain character; the top-level domain starts
    // after the last `.`.
    let mut j: usize = at + 1;
    let mut last_dot: Option<usize> = None;
    while j < n
        invariant
            0 < at < n,
            sq[at as int] == '@',
            local_run(sq, 0, at as int),
            at + 1 <= j <= n,
            n == sq.len(),
            cs@ == sq,
            sq == s@,
            domain_run(sq, at + 1, j as int),
            match last_dot {
                Some(d) => at + 1 <= d < j && sq[d as int] == '.' && forall|k: int|
                    d < k < j ==> sq[k] != '.',
                None => forall|k: int| at + 1 <= k < j ==> sq[k] != '.',
            },
        decreases n - j,
    {
        if !is_domain_char_exec(cs[j]) {
            proof {
                if is_well_formed_email(sq) {
                    let (a, d) = choose|a: int, d: int| email_split(sq, a, d);
                    if a < at {
                        assert(is_local_char(sq[a]));
                    }
                    if at < a {
                        assert(is_local_char(sq[at as int]));
                    }
                    assert(a == at);
                    assert(!is_domain_char(sq[j as int]));
                    if j < d {
                        assert(is_domain_char(sq[j as int]));
                    } else if j > d {
                        assert(is_ascii_alpha(sq[j as int]));
                    } else {
                        assert(sq[j as int] == '.');
                    }
                    assert(false);
                }
            }
            return false;
        }
        if cs[j] == '.' {
            last_dot = Some(j);
        }
        j = j + 1;
    }
    let dot = match last_dot {
        Some(d) => d,
        None => {
            proof {
                if is_well_formed_email(sq) {
                    let (a, d) = choose|a: int, d: int| email_split(sq, a, d);
                    if a < at {
                        assert(is_local_char(sq[a]));
                    }
                    if at < a {
                        assert(is_local_char(sq[at as int]));
                    }
                }
            }
            return false;
        },
    };
    let mut ok = dot > at + 1 && n - dot >= 3;
    let mut k: usize = dot + 1;
    while k < n
        invariant
            at < n,
            sq[at as int] == '@',
            local_run(sq, 0, at as int),
            domain_run(sq, at + 1, n as int),
            at + 1 <= dot < n,
            sq[dot as int] == '.',
            forall|i: int| dot < i < n ==> sq[i] != '.',
            0 < at,
            dot < k <= n,
            n == sq.len(),
            cs@ == sq,
            sq == s@,
            ok <==> (dot > at + 1 && n - dot >= 3 && alpha_run(sq, dot + 1, k as int)),
        decreases n - k,
    {
        if !is_ascii_alpha_exec(cs[k]) {
            ok = false;
        }
        k = k + 1;
    }
    proof {
        if ok {
            assert(email_split(sq, at as int, dot as int));
        }
        if is_well_formed_email(sq) {
            let (a, d) = choose|a: int, d: int| email_split(sq, a, d);
            if a < at {
                assert(is_local_char(sq[a]));
            }
            if at < a {
                assert(is_local_char(sq[at as int]));
            }
            if d < dot {
                assert(is_ascii_alpha(sq[dot as int]));
            }
            if dot < d {
                assert(sq[d] != '.');
            }
            if !ok {
                if !(dot > at + 1 && n - dot >= 3) {
                } else {
                    assert(alpha_run(sq, dot + 1, n as int));
                }
            }
        }
    }
    ok
}

/// A well-formed e-mail address.
#[derive(Clone, PartialEq, Eq, Debug)]
pub struct AuthEmail {
    pub email: String,
}

impl AuthEmail {
    /// Accepts `email` if the whole of it matches
    /// `^[a-zA-Z0-9._%+-]+@[a-zA-Z0-9.-]+\.[a-zA-Z]{2,}$`, and refuses it with
    /// [`FieldFormatError::EmailError`] otherwise.
    pub fn new(email: String) -> (res: Result<AuthEmail, FieldFormatError>)
        ensures
            res is Ok <==> is_well_formed_email(email@),
            res matches Ok(a) ==> a.email == email,
            res matches Err(e) ==> e == FieldFormatError::EmailError,
    {
        if !matches_email_pattern(email.as_str()) {
            return Err(FieldFormatError::EmailError);
        }
        Ok(AuthEmail { email })
    }
}

/// The number of characters of a string.
pub fn char_count(s: &str) -> (res: usize)
    ensures
        res == s@.len(),
{
    chars_of(s).len()
}

/// Whether a username has an acceptable length: between 2 and 32 characters.
pub open spec fn valid_username(username: Seq<char>) -> bool {
    2 <= username.len() <= 32
}

/// Whether a password has an acceptable length: between 1 and 72 characters.
pub open spec fn valid_password(password: Seq<char>) -> bool {
    1 <= password.len() <= 72
}

/// A well-formed username: between 2 and 32 characters long.
#[derive(Clone, PartialEq, Eq, Debug)]
pub struct AuthUsername {
    pub username: String,
}

impl AuthUsername {
    /// Accepts `username` if it is between 2 and 32 characters long, and refuses it with
    /// [`FieldFormatError::UsernameError`] otherwise.
    pub fn new(username: String) -> (res: Result<AuthUsername, FieldFormatError>)
        ensures
            res is Ok <==> valid_username(username@),
            res matches Ok(u) ==> u.username == username,
            res matches Err(e) ==> e == FieldFormatError::UsernameError,
    {
        let len = char_count(username.as_str());
        if len < 2 || len > 32 {
            Err(FieldFormatError::UsernameError)
        } else {
            Ok(AuthUsername { username })
        }
    }
}

/// A well-formed password: between 1 and 72 characters long.
#[derive(Clone, PartialEq, Eq, Debug)]
pub struct AuthPassword {
    pub password: String,
}

impl AuthPassword {
    /// Accepts `password` if it is between 1 and 72 characters long, and refuses it with
    /// [`FieldFormatError::PasswordError`] otherwise.
    pub fn new(password: String) -> (res: Result<AuthPassword, FieldFormatError>)
        ensures
            res is Ok <==> valid_password(password@),
            res matches Ok(p) ==> p.password == password,
            res matches Err(e) ==> e == FieldFormatError::PasswordError,
    {
        let len = char_count(password.as_str());
        if len < 1 || len > 72 {
            Err(FieldFormatError::PasswordError)
        } else {
            Ok(AuthPassword { password })
        }
    }
}

} // verus!

verus! {

/// The password of an optional [`AuthPassword`].
pub open spec fn password_of(p: Option<AuthPassword>) -> Option<String> {
    match p {
        Some(p) => Some(p.password),
        None => None,
    }
}

/// The address of an optional [`AuthEmail`].
pub open spec fn email_of(e: Option<AuthEmail>) -> Option<String> {
    match e {
        Some(e) => Some(e.email),
        None => None,
    }
}

/// Whether `username` is between 2 and 32 characters long.
fn valid_username_exec(username: &String) -> (res: bool)
    ensures
        res == valid_username(username@),
{
    let len = char_count(username.as_str());
    2 <= len && len <= 32
}

/// Whether `password` is between 1 and 72 characters long.
fn valid_password_exec(password: &String) -> (res: bool)
    ensures
        res == valid_password(password@),
{
    let len = char_count(password.as_str());
    1 <= len && len <= 72
}

/// Why a register request with these fields is refused, if it is: no consent, then a
/// username of the wrong length, then a password of the wrong length.
pub open spec fn register_error(
    username: AuthUsername,
    password: Option<AuthPassword>,
    consent: bool,
) -> Option<FieldFormatError> {
    if !consent {
        Some(FieldFormatError::ConsentError)
    } else if !valid_username(username.username@) {
        Some(FieldFormatError::UsernameError)
    } else if password matches Some(p) && !valid_password(p.password@) {
        Some(FieldFormatError::PasswordError)
    } else {
        None
    }
}

/// A well-formed register request.
#[derive(Debug, PartialEq, Eq)]
pub struct RegisterSchema {
    username: String,
    password: Option<String>,
    consent: bool,
    email: Option<String>,
    fingerprint: Option<String>,
    invite: Option<String>,
    date_of_birth: Option<String>,
    gift_code_sku_id: Option<String>,
    captcha_key: Option<String>,
    promotional_email_opt_in: Option<bool>,
}

impl RegisterSchema {
    /// The fields of the request, in declaration order.
    pub closed spec fn fields(self) -> (
        String,
        Option<String>,
        bool,
        Option<String>,
        Option<String>,
        Option<String>,
        Option<String>,
        Option<String>,
        Option<String>,
        Option<bool>,
    ) {
        (
            self.username,
            self.password,
            self.consent,
            self.email,
            self.fingerprint,
            self.invite,
            self.date_of_birth,
            self.gift_code_sku_id,
            self.captcha_key,
            self.promotional_email_opt_in,
        )
    }

    /// A register request made of the given fields. Refused with
    /// [`FieldFormatError::ConsentError`] if `consent` is false, otherwise with
    /// [`FieldFormatError::UsernameError`] if the username is not between 2 and 32 characters
    /// long, otherwise with [`FieldFormatError::PasswordError`] if a password is given that is
    /// not between 1 and 72 characters long.
    pub fn new(
        username: AuthUsername,
        password: Option<AuthPassword>,
        consent: bool,
        email: Option<AuthEmail>,
        fingerprint: Option<String>,
        invite: Option<String>,
        date_of_birth: Option<String>,
        gift_code_sku_id: Option<String>,
        captcha_key: Option<String>,
        promotional_email_opt_in: Option<bool>,
    ) -> (res: Result<RegisterSchema, FieldFormatError>)
        ensures
            register_error(username, password, consent) matches Some(e) ==> res
                == Err::<RegisterSchema, FieldFormatError>(e),
            res is Ok <==> register_error(username, password, consent) is None,
            res matches Ok(r) ==> r.fields() == (
                username.username,
                password_of(password),
                consent,
                email_of(email),
                fingerprint,
                invite,
                date_of_birth,
                gift_code_sku_id,
                captcha_key,
                promotional_email_opt_in,
            ),
    {
        if !consent {
            return Err(FieldFormatError::ConsentError);
        }
        if !valid_username_exec(&username.username) {
            return Err(FieldFormatError::UsernameError);
        }
        if let Some(p) = &password {
            if !valid_password_exec(&p.password) {
                return Err(FieldFormatError::PasswordError);
            }
        }

        let username = username.username;

        let email_addr = match email {
            Some(e) => Some(e.email),
            None => None,
        };

        let has_password = match password {
            Some(p) => Some(p.password),
            None => None,
        };

        Ok(RegisterSchema {
            username,
            password: has_password,
            consent,
            email: email_addr,
            fingerprint,
            invite,
            date_of_birth,
            gift_code_sku_id,
            captcha_key,
            promotional_email_opt_in,
        })
    }

    /// The fields of the request, in declaration order, to be written out.
    pub fn into_fields(self) -> (res: (
        String,
        Option<String>,
        bool,
        Option<String>,
        Option<String>,
        Option<String>,
        Option<String>,
        Option<String>,
        Option<String>,
        Option<bool>,
    ))
        ensures
            res == self.fields(),
    {
        (
            self.username,
            self.password,
            self.consent,
            self.email,
            self.fingerprint,
            self.invite,
            self.date_of_birth,
            self.gift_code_sku_id,
            self.captcha_key,
            self.promotional_email_opt_in,
        )
    }
}

/// A well-formed login request.
#[derive(Debug, PartialEq, Eq)]
pub struct LoginSchema {
    login: String,
    password: String,
    undelete: Option<bool>,
    captcha_key: Option<String>,
    login_source: Option<String>,
    gift_code_sku_id: Option<String>,
}

impl LoginSchema {
    /// The fields of the request, in declaration order.
    pub closed spec fn fields(self) -> (
        String,
        String,
        Option<bool>,
        Option<String>,
        Option<String>,
        Option<String>,
    ) {
        (
            self.login,
            self.password,
            self.undelete,
            self.captcha_key,
            self.login_source,
            self.gift_code_sku_id,
        )
    }

    /// A login request for the username `login`. Refused with
    /// [`FieldFormatError::UsernameError`] if the username is not between 2 and 32 characters
    /// long.
    pub fn new(
        login: AuthUsername,
        password: String,
        undelete: Option<bool>,
        captcha_key: Option<String>,
        login_source: Option<String>,
        gift_code_sku_id: Option<String>,
    ) -> (res: Result<LoginSchema, FieldFormatError>)
        ensures
            res is Ok <==> valid_username(login.username@),
            res matches Err(e) ==> e == FieldFormatError::UsernameError,
            res matches Ok(l) ==> l.fields() == (
                login.username,
                password,
                undelete,
                captcha_key,
                login_source,
                gift_code_sku_id,
            ),
    {
        if !valid_username_exec(&login.username) {
            return Err(FieldFormatError::UsernameError);
        }
        let login = login.username;
        Ok(LoginSchema { login, password, undelete, captcha_key, login_source, gift_code_sku_id })
    }

    /// The fields of the request, in declaration order, to be written out.
    pub fn into_fields(self) -> (res: (
        String,
        String,
        Option<bool>,
        Option<String>,
        Option<String>,
        Option<String>,
    ))
        ensures
            res == self.fields(),
    {
        (
            self.login,
            self.password,
            self.undelete,
            self.captcha_key,
            self.login_source,
            self.gift_code_sku_id,
        )
    }
}

/// A request that completes a login with a TOTP code.
#[derive(Debug)]
pub struct TotpSchema {
    code: String,
    ticket: String,
    gift_code_sku_id: Option<String>,
    login_source: Option<String>,
}

} // verus!

verus! {

/// The body of a request that sends a message.
#[derive(Debug)]
pub struct MessageSendSchema {
    message_type: Option<i32>,
    content: Option<String>,
    nonce: Option<String>,
    tts: Option<bool>,
    embeds: Option<Vec<Embed>>,
    allowed_mentions: Option<AllowedMention>,
    message_reference: Option<MessageReference>,
    components: Option<Vec<Component>>,
    sticker_ids: Option<Vec<String>>,
    files: Option<HashMap<String, Vec<u8>>>,
    attachments: Option<Vec<PartialDiscordFileAttachment>>,
}

/// `b` is `a` made ready for upload: its id is `index` and its size is the length of its
/// content; nothing else changes.
pub open spec fn preprocessed(
    a: PartialDiscordFileAttachment,
    b: PartialDiscordFileAttachment,
    index: int,
) -> bool {
    &&& b.id == Some(index as u64)
    &&& b.size == Some(a.content@.len() as u64)
    &&& b.filename == a.filename
    &&& b.content_type == a.content_type
    &&& b.content == a.content
    &&& same_metadata(b, PartialDiscordFileAttachment { id: b.id, size: b.size, ..a })
}

impl MessageSendSchema {
    /// The attachments of the message.
    pub closed spec fn spec_attachments(self) -> Option<Vec<PartialDiscordFileAttachment>> {
        self.attachments
    }

    /// Everything in the message but its attachments.
    pub closed spec fn body(self) -> (
        Option<i32>,
        Option<String>,
        Option<String>,
        Option<bool>,
        Option<Vec<Embed>>,
        Option<AllowedMention>,
        Option<MessageReference>,
        Option<Vec<Component>>,
        Option<Vec<String>>,
        Option<HashMap<String, Vec<u8>>>,
    ) {
        (
            self.message_type,
            self.content,
            self.nonce,
            self.tts,
            self.embeds,
            self.allowed_mentions,
            self.message_reference,
            self.components,
            self.sticker_ids,
            self.files,
        )
    }

    /// A message with the given fields.
    pub fn new(
        message_type: Option<i32>,
        content: Option<String>,
        nonce: Option<String>,
        tts: Option<bool>,
        embeds: Option<Vec<Embed>>,
        allowed_mentions: Option<AllowedMention>,
        message_reference: Option<MessageReference>,
        components: Option<Vec<Component>>,
        sticker_ids: Option<Vec<String>>,
        files: Option<HashMap<String, Vec<u8>>>,
        attachments: Option<Vec<PartialDiscordFileAttachment>>,
    ) -> (res: MessageSendSchema)
        ensures
            res.body() == (
                message_type,
                content,
                nonce,
                tts,
                embeds,
                allowed_mentions,
                message_reference,
                components,
                sticker_ids,
                files,
            ),
            res.spec_attachments() == attachments,
    {
        MessageSendSchema {
            message_type,
            content,
            nonce,
            tts,
            embeds,
            allowed_mentions,
            message_reference,
            components,
            sticker_ids,
            files,
            attachments,
        }
    }

    /// Everything in the message but its attachments, and its attachments, to be written out.
    pub fn into_parts(self) -> (res: (
        (
            Option<i32>,
            Option<String>,
            Option<String>,
            Option<bool>,
            Option<Vec<Embed>>,
            Option<AllowedMention>,
            Option<MessageReference>,
            Option<Vec<Component>>,
            Option<Vec<String>>,
            Option<HashMap<String, Vec<u8>>>,
        ),
        Option<Vec<PartialDiscordFileAttachment>>,
    ))
        ensures
            res.0 == self.body(),
            res.1 == self.spec_attachments(),
    {
        (
            (
                self.message_type,
                self.content,
                self.nonce,
                self.tts,
                self.embeds,
                self.allowed_mentions,
                self.message_reference,
                self.components,
                self.sticker_ids,
                self.files,
            ),
            self.attachments,
        )
    }

    /// Whether the message has attachments.
    pub fn has_attachments(&self) -> (res: bool)
        ensures
            res == self.spec_attachments() is Some,
    {
        self.attachments.is_some()
    }

    /// Takes the attachments out of the message, leaving none.
    pub fn take_attachments(&mut self) -> (res: Option<Vec<PartialDiscordFileAttachment>>)
        ensures
            res == old(self).spec_attachments(),
            final(self).spec_attachments() is None,
            final(self).body() == old(self).body(),
    {
        self.attachments.take()
    }

    /// Replaces the attachments of the message.
    pub fn set_attachments(&mut self, attachments: Option<Vec<PartialDiscordFileAttachment>>)
        ensures
            final(self).spec_attachments() == attachments,
            final(self).body() == old(self).body(),
    {
        self.attachments = attachments;
    }

    /// Makes the attachments ready for upload: their ids become their positions in the list
    /// (0, 1, 2, ...) and their sizes the lengths of their contents.
    pub fn preprocess_attachments(&mut self)
        ensures
            final(self).body() == old(self).body(),
            old(self).spec_attachments() is None ==> final(self).spec_attachments() is None,
            old(self).spec_attachments() matches Some(v) ==> (final(self).spec_attachments() matches Some(w)
                && w@.len() == v@.len()
                && forall|i: int| 0 <= i < v@.len() ==> #[trigger] preprocessed(v@[i], w@[i], i)),
    {
        match &mut self.attachments {
            Some(attachments) => {
                let ghost start = attachments@;
                let n = attachments.len();
                let mut index: usize = 0;
                while index < n
                    invariant
                        n == attachments@.len(),
                        n == start.len(),
                        index <= n,
                        forall|i: int| 0 <= i < index ==> #[trigger] preprocessed(start[i], attachments@[i], i),
                        forall|i: int| index <= i < n ==> #[trigger] attachments@[i] == start[i],
                    decreases n - index,
                {
                    let size = attachments[index].content.len() as u64;
                    attachments[index].id = Some(index as u64);
                    attachments[index].size = Some(size);
                    index = index + 1;
                }
            },
            None => {},
        }
    }
}

} // verus!

verus! {

/// A well-formed e-mail address holds exactly one `@`, and is at least six characters long
/// (one for the local part, the `@`, one for the domain, the `.` and two for the top-level
/// domain).
pub proof fn lemma_well_formed_email_shape(s: Seq<char>, i: int, j: int)
    requires
        is_well_formed_email(s),
        0 <= i < s.len(),
        0 <= j < s.len(),
        s[i] == '@',
        s[j] == '@',
    ensures
        i == j,
        s.len() >= 6,
{
    let (at, dot) = choose|at: int, dot: int| email_split(s, at, dot);
    if i < at {
        assert(is_local_char(s[i]));
    } else if i > at && i < dot {
        assert(is_domain_char(s[i]));
    } else if i > dot {
        assert(is_ascii_alpha(s[i]));
    }
    if j < at {
        assert(is_local_char(s[j]));
    } else if j > at && j < dot {
        assert(is_domain_char(s[j]));
    } else if j > dot {
        assert(is_ascii_alpha(s[j]));
    }
}

/// Once attachments are made ready for upload, their ids are all different: they are their
/// positions in the list.
pub proof fn lemma_preprocessed_ids_distinct(
    v: Seq<PartialDiscordFileAttachment>,
    w: Seq<PartialDiscordFileAttachment>,
    i: int,
    j: int,
)
    requires
        w.len() == v.len(),
        v.len() <= u64::MAX,
        forall|k: int| 0 <= k < v.len() ==> #[trigger] preprocessed(v[k], w[k], k),
        0 <= i < v.len(),
        0 <= j < v.len(),
        i != j,
    ensures
        w[i].id != w[j].id,
        w[i].id == Some(i as u64),
{
    assert(preprocessed(v[i], w[i], i));
    assert(preprocessed(v[j], w[j], j));
}

/// Making attachments ready for upload twice is the same as making them ready once: an
/// attachment that is already ready stays as it is.
pub proof fn lemma_preprocess_idempotent(
    a: PartialDiscordFileAttachment,
    b: PartialDiscordFileAttachment,
    c: PartialDiscordFileAttachment,
    index: int,
)
    requires
        preprocessed(a, b, index),
        preprocessed(b, c, index),
    ensures
        c.id == b.id,
        c.size == b.size,
        c.filename == b.filename,
        c.content_type == b.content_type,
        c.content == b.content,
        same_metadata(c, b),
{
}

} // verus!
