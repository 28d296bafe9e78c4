//! The settings as the second shell knows them, and what it answers to its page.
use vstd::prelude::*;

use crate::config::{copy_text, default_config, maybe_text};
use crate::json::{maybe_json, Json, JsonView};

verus! {

/// The settings that the second shell reads and writes; any but the address may be
/// absent.
#[derive(Debug)]
pub struct ShellConfig {
    pub upload_url: String,
    pub method: Option<String>,
    pub file_field: Option<String>,
    pub headers: Option<Json>,
    pub response: Option<String>,
    pub copy_to_clipboard: Option<bool>,
}

/// The model of a [`ShellConfig`].
pub struct ShellConfigView {
    pub upload_url: Seq<char>,
    pub method: Option<Seq<char>>,
    pub file_field: Option<Seq<char>>,
    pub headers: Option<JsonView>,
    pub response: Option<Seq<char>>,
    pub copy_to_clipboard: Option<bool>,
}

impl View for ShellConfig {
    type V = ShellConfigView;

    open spec fn view(&self) -> ShellConfigView {
        ShellConfigView {
            upload_url: self.upload_url@,
            method: maybe_text(self.method),
            file_field: maybe_text(self.file_field),
            headers: maybe_json(self.headers),
            response: maybe_text(self.response),
            copy_to_clipboard: self.copy_to_clipboard,
        }
    }
}

impl Clone for ShellConfig {
    fn clone(&self) -> (r: Self)
        ensures
            r@ == self@,
    {
        ShellConfig {
            upload_url: self.upload_url.clone(),
            method: copy_text(&self.method),
            file_field: copy_text(&self.file_field),
            headers: match &self.headers {
                Some(j) => Some(j.clone()),
                None => None,
            },
            response: copy_text(&self.response),
            copy_to_clipboard: self.copy_to_clipboard,
        }
    }
}

/// The settings of a first start.
pub open spec fn default_shell_config() -> ShellConfigView {
    ShellConfigView {
        upload_url: "https://0x0.st"@,
        method: Some("POST"@),
        file_field: Some("file"@),
        headers: None,
        response: Some("text"@),
        copy_to_clipboard: Some(false),
    }
}

impl Default for ShellConfig {
    fn default() -> (r: Self)
        ensures
            r@ == default_shell_config(),
    {
        ShellConfig {
            upload_url: "https://0x0.st".to_owned(),
            method: Some("POST".to_owned()),
            file_field: Some("file".to_owned()),
            headers: None,
            response: Some("text".to_owned()),
            copy_to_clipboard: Some(false),
        }
    }
}

/// Answers with the settings that were read, or with the defaults where the file is
/// absent, unreadable or malformed. It never fails.
pub fn get_config(read: Option<ShellConfig>) -> (r: Result<ShellConfig, String>)
    ensures
        r matches Ok(c) && c@ == (match read {
            Some(x) => x@,
            None => default_shell_config(),
        }),
{
    match read {
        Some(c) => Ok(c),
        None => Ok(ShellConfig::default()),
    }
}

/// Answers whether the settings were written.
pub fn save_config(written: bool) -> (r: Result<(), String>)
    ensures
        written ==> r is Ok,
        !written ==> (r matches Err(e) && e@ == "保存失败"@),
{
    if written {
        Ok(())
    } else {
        Err("保存失败".to_owned())
    }
}

/// Both shells start from the same settings, as far as both know them.
pub proof fn lemma_shells_agree_at_first_start()
    ensures
        default_shell_config().upload_url == default_config().upload_url,
        default_shell_config().method == default_config().method,
        default_shell_config().file_field == default_config().file_field,
        default_shell_config().headers == default_config().headers,
        default_shell_config().response == default_config().response,
        default_shell_config().copy_to_clipboard == default_config().copy_to_clipboard,
{
}

} // verus!
