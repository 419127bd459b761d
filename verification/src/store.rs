//! The config store: path resolution, the default document, and the
//! create-if-missing, read and write primitives over the on-disk file.
//!
//! The file itself is modelled by [`FileState`]: the text the configuration
//! file holds, or `None` while it does not exist. Whether an underlying
//! filesystem operation succeeds is decided outside this library, so each
//! primitive takes that outcome as an explicit parameter and states exactly
//! what the file and the result look like for either value.

use vstd::prelude::*;
use vstd::string::StringExecFns;
use crate::error::ConfigError;
use crate::models::{Desktop, Style, VSKConfig};

verus! {

/// The on-disk configuration file: its full text, or `None` while the file
/// does not exist.
pub struct FileState {
    pub content: Option<String>,
}

impl View for FileState {
    type V = Option<Seq<char>>;

    open spec fn view(&self) -> Option<Seq<char>> {
        match self.content {
            Some(s) => Some(s@),
            None => None,
        }
    }
}

/// The fixed location of the configuration file, relative to the user's
/// home directory.
pub open spec fn spec_config_file_suffix() -> Seq<char> {
    "/.config/vasak/vasak.conf"@
}

/// The fixed location of the configuration file, relative to the user's
/// home directory.
pub fn config_file_suffix() -> (r: &'static str)
    ensures
        r@ == spec_config_file_suffix(),
{
    "/.config/vasak/vasak.conf"
}

/// The absolute path of the configuration file under the given home
/// directory.
pub fn config_path(home: &str) -> (r: String)
    ensures
        r@ == home@ + spec_config_file_suffix(),
{
    home.to_owned().concat(config_file_suffix())
}

/// A path of the shape the store resolves: some home directory followed by
/// the fixed relative location of the configuration file.
pub open spec fn is_config_path(path: Seq<char>) -> bool {
    exists|home: Seq<char>| path == #[trigger] (home + spec_config_file_suffix())
}

/// Relies on dirs_next::home_dir: the user's home directory, if the
/// platform reports one. The answer depends on the environment, so nothing
/// is assumed of it beyond its presence or absence.
#[verifier::external_body]
fn home_dir_string() -> (r: Option<String>) {
    dirs_next::home_dir().map(|p| p.to_string_lossy().into_owned())
}

/// Resolves the configuration file's fixed path under the user's home
/// directory; a recoverable error when the home directory cannot be
/// determined.
pub fn resolve_config_path() -> (r: Result<String, ConfigError>)
    ensures
        r matches Ok(p) ==> is_config_path(p@),
        r matches Err(e) ==> e is Other,
{
    match home_dir_string() {
        Some(home) => {
            let p = config_path(home.as_str());
            proof {
                assert(p@ == home@ + spec_config_file_suffix());
            }
            Ok(p)
        },
        None => Err(
            ConfigError::Other("the user's home directory could not be determined".to_owned()),
        ),
    }
}

/// The default document: dark mode off, the fixed default accent color and
/// corner radius, an empty wallpaper list, the default icon size, files
/// shown and hidden files not shown.
pub fn default_config() -> (r: VSKConfig)
    ensures
        r.style.darkmode == false,
        r.style.color_scheme@ == "#3584e4"@,
        r.style.radius == 12,
        r.desktop matches Some(d) && d.wallpaper@.len() == 0 && d.iconsize == 48 && d.showfiles
            == true && d.showhiddenfiles == false,
{
    VSKConfig {
        style: Style { darkmode: false, color_scheme: "#3584e4".to_owned(), radius: 12 },
        desktop: Some(
            Desktop {
                wallpaper: Vec::new(),
                iconsize: 48,
                showfiles: true,
                showhiddenfiles: false,
            },
        ),
    }
}

/// The serialized form of the default document, as it is first written to
/// disk: the pretty-printed JSON rendering of [`default_config`].
pub open spec fn spec_default_config_text() -> Seq<char> {
    "{\n  \"style\": {\n    \"darkmode\": false,\n    \"color-scheme\": \"#3584e4\",\n    \"radius\": 12\n  },\n  \"desktop\": {\n    \"wallpaper\": [],\n    \"iconsize\": 48,\n    \"showfiles\": true,\n    \"showhiddenfiles\": false\n  }\n}"@
}

/// The serialized form of the default document, as it is first written to
/// disk: the pretty-printed JSON rendering of [`default_config`].
pub fn default_config_text() -> (r: String)
    ensures
        r@ == spec_default_config_text(),
{
    "{\n  \"style\": {\n    \"darkmode\": false,\n    \"color-scheme\": \"#3584e4\",\n    \"radius\": 12\n  },\n  \"desktop\": {\n    \"wallpaper\": [],\n    \"iconsize\": 48,\n    \"showfiles\": true,\n    \"showhiddenfiles\": false\n  }\n}".to_owned()
}

/// The file after the create-if-missing step: an existing file is left
/// untouched; an absent one now holds the default text, unless the
/// underlying filesystem operation failed.
pub open spec fn spec_ensure_exists(file: Option<Seq<char>>, create_ok: bool) -> Option<
    Seq<char>,
> {
    match file {
        Some(c) => Some(c),
        None => if create_ok {
            Some(spec_default_config_text())
        } else {
            None
        },
    }
}

/// If the file is absent, creates it with the default document; an existing
/// file is left untouched, whatever it holds. `create_ok` reports whether
/// the underlying create-directories-and-write operation succeeded.
pub fn ensure_exists(file: &mut FileState, create_ok: bool) -> (r: Result<(), ConfigError>)
    ensures
        final(file)@ == spec_ensure_exists(old(file)@, create_ok),
        r is Ok <==> spec_ensure_exists(old(file)@, create_ok) is Some,
        r matches Err(e) ==> e is Io && final(file)@ == old(file)@,
{
    match &file.content {
        Some(_) => Ok(()),
        None => {
            if create_ok {
                file.content = Some(default_config_text());
                Ok(())
            } else {
                Err(
                    ConfigError::Io(
                        "could not create the configuration file or its parent directories".to_owned(),
                    ),
                )
            }
        },
    }
}

/// Idempotence of default creation: once the create-if-missing step has
/// succeeded, running it again changes nothing, whether or not the second
/// underlying filesystem operation would succeed.
pub proof fn lemma_ensure_exists_idempotent(file: Option<Seq<char>>, second_ok: bool)
    ensures
        spec_ensure_exists(spec_ensure_exists(file, true), second_ok) == spec_ensure_exists(
            file,
            true,
        ),
{
}

/// Reads the file's full text. `read_ok` reports whether the underlying
/// read succeeded; reading an absent file fails regardless.
pub fn read_raw(file: &FileState, read_ok: bool) -> (r: Result<String, ConfigError>)
    ensures
        r is Ok <==> read_ok && file@ is Some,
        r matches Ok(s) ==> file@ == Some(s@),
        r matches Err(e) ==> e is Io,
{
    match &file.content {
        Some(s) => {
            if read_ok {
                Ok(s.clone())
            } else {
                Err(ConfigError::Io("could not read the configuration file".to_owned()))
            }
        },
        None => Err(
            ConfigError::Io("the configuration file does not exist and could not be read".to_owned()),
        ),
    }
}

/// The file after a write of `text`: it holds exactly that text if the
/// underlying write succeeded, and is unchanged otherwise.
pub open spec fn spec_write_raw(file: Option<Seq<char>>, text: Seq<char>, write_ok: bool) -> Option<
    Seq<char>,
> {
    if write_ok {
        Some(text)
    } else {
        file
    }
}

/// Replaces the file's text with exactly `text`. `write_ok` reports whether
/// the underlying write succeeded; on failure the file is unchanged.
pub fn write_raw(file: &mut FileState, text: &str, write_ok: bool) -> (r: Result<(), ConfigError>)
    ensures
        final(file)@ == spec_write_raw(old(file)@, text@, write_ok),
        r is Ok <==> write_ok,
        r matches Err(e) ==> e is Io && final(file)@ == old(file)@,
{
    if write_ok {
        file.content = Some(text.to_owned());
        Ok(())
    } else {
        Err(ConfigError::Io("could not write to the configuration file".to_owned()))
    }
}

} // verus!
