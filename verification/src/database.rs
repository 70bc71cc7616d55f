//! Loading a compilation database.
//!
//! A compilation database is a JSON array of objects, each giving one
//! source file (`"file"`) and the compiler invocation used for it
//! (`"command"`, one string). The JSON itself is decoded by the
//! `serde_json` crate through the trusted items below; the shape checks,
//! the error taxonomy and the whitespace splitting of each command into
//! its argument vector are the library's own, verified logic. Reading
//! the text from disk is the caller's job: [`CompilationDatabase::new`]
//! takes the document as a string.

use vstd::prelude::*;

use crate::text::split_whitespace;
use crate::text::split_ws;
use crate::text::strings_view;

verus! {

#[verifier::external_type_specification]
#[verifier::external_body]
pub struct ExValue(serde_json::Value);

/// What `serde_json::from_str` yields for a text: the parsed document,
/// or nothing where the text is not valid JSON. The result depends on
/// the text alone.
pub uninterp spec fn json_parsed(s: Seq<char>) -> Option<serde_json::Value>;

/// The items of a JSON array value, or nothing where the value is not
/// an array; what `serde_json::Value::as_array` yields.
pub uninterp spec fn json_items(v: serde_json::Value) -> Option<Seq<serde_json::Value>>;

/// The member of a JSON object value under a key, or nothing where the
/// value is no object or has no such member; what
/// `serde_json::Value::get` yields.
pub uninterp spec fn json_member(v: serde_json::Value, key: Seq<char>) -> Option<
    serde_json::Value,
>;

/// The characters of a JSON string value, or nothing where the value is
/// not a string; what `serde_json::Value::as_str` yields.
pub uninterp spec fn json_text(v: serde_json::Value) -> Option<Seq<char>>;

/// Relies on serde_json::from_str: parses a JSON text; the result is a
/// function of the text alone.
#[verifier::external_body]
fn parse_json(text: &str) -> (r: Option<serde_json::Value>)
    ensures
        r == json_parsed(text@),
{
    serde_json::from_str(text).ok()
}

/// Relies on serde_json::Value::as_array: hands out an array's items.
#[verifier::external_body]
fn value_items(v: &serde_json::Value) -> (r: Option<&Vec<serde_json::Value>>)
    ensures
        match r {
            Some(items) => json_items(*v) == Some(items@),
            None => json_items(*v) is None,
        },
{
    v.as_array()
}

/// Relies on serde_json::Value::get: looks a member up by key.
#[verifier::external_body]
fn value_member<'a>(v: &'a serde_json::Value, key: &str) -> (r: Option<&'a serde_json::Value>)
    ensures
        match r {
            Some(m) => json_member(*v, key@) == Some(*m),
            None => json_member(*v, key@) is None,
        },
{
    v.get(key)
}

/// Relies on serde_json::Value::as_str: hands out a string's characters.
#[verifier::external_body]
fn value_text(v: &serde_json::Value) -> (r: Option<&str>)
    ensures
        match r {
            Some(s) => json_text(*v) == Some(s@),
            None => json_text(*v) is None,
        },
{
    v.as_str()
}

/// One row of the database as the JSON gives it: the invocation as one
/// string, and the file it compiles.
#[derive(Debug, PartialEq, Eq, Clone)]
pub struct Command {
    pub command: String,
    pub file: String,
}

/// Mathematical image of a [`Command`].
#[verifier::ext_equal]
pub struct CommandView {
    pub command: Seq<char>,
    pub file: Seq<char>,
}

impl View for Command {
    type V = CommandView;

    open spec fn view(&self) -> CommandView {
        CommandView { command: self.command@, file: self.file@ }
    }
}

/// One compile command ready for use: the argument vector, in order,
/// and the file it compiles.
#[derive(Debug, PartialEq, Eq, Clone)]
pub struct Parsed {
    pub args: Vec<String>,
    pub file: String,
}

/// Mathematical image of a [`Parsed`].
#[verifier::ext_equal]
pub struct ParsedView {
    pub args: Seq<Seq<char>>,
    pub file: Seq<char>,
}

impl View for Parsed {
    type V = ParsedView;

    open spec fn view(&self) -> ParsedView {
        ParsedView { args: strings_view(self.args@), file: self.file@ }
    }
}

/// The compile command a database row denotes: the command string split
/// on whitespace, the file kept verbatim.
pub open spec fn parsed_of(c: CommandView) -> ParsedView {
    ParsedView { args: split_ws(c.command), file: c.file }
}

impl Command {
    /// Splits the invocation string into the argument vector, keeping
    /// the file name verbatim.
    pub fn into_parsed(self) -> (p: Parsed)
        ensures
            p@ == parsed_of(self@),
    {
        Parsed { args: split_whitespace(self.command.as_str()), file: self.file }
    }
}

/// Why a compilation-database document was rejected.
#[derive(Debug, PartialEq, Eq, Clone, Copy)]
pub enum LoadError {
    /// The text is not valid JSON.
    InvalidJson,
    /// The document is valid JSON but not an array.
    NotAnArray,
    /// An element of the array is no object with string members
    /// `"command"` and `"file"`.
    InvalidEntry,
}

/// The row one array element denotes, or nothing where the element is
/// no object with string members `"command"` and `"file"`.
pub open spec fn row_of(v: serde_json::Value) -> Option<CommandView> {
    match json_member(v, "command"@) {
        None => None,
        Some(c) => match json_text(c) {
            None => None,
            Some(command) => match json_member(v, "file"@) {
                None => None,
                Some(f) => match json_text(f) {
                    None => None,
                    Some(file) => Some(CommandView { command, file }),
                },
            },
        },
    }
}

/// The compile commands an array's items denote, in order; the first
/// malformed item rejects the document.
pub open spec fn rows_of(items: Seq<serde_json::Value>) -> Result<Seq<ParsedView>, LoadError>
    decreases items.len(),
{
    if items.len() == 0 {
        Ok(Seq::empty())
    } else {
        match row_of(items[0]) {
            None => Err(LoadError::InvalidEntry),
            Some(row) => match rows_of(items.drop_first()) {
                Err(e) => Err(e),
                Ok(rest) => Ok(seq![parsed_of(row)] + rest),
            },
        }
    }
}

/// The compile commands a database document denotes, or the error that
/// rejects it: not JSON, not an array, or a malformed element.
pub open spec fn database_of(s: Seq<char>) -> Result<Seq<ParsedView>, LoadError> {
    match json_parsed(s) {
        None => Err(LoadError::InvalidJson),
        Some(doc) => match json_items(doc) {
            None => Err(LoadError::NotAnArray),
            Some(items) => rows_of(items),
        },
    }
}

/// The images of a sequence of compile commands, element-wise.
pub open spec fn commands_view(v: Seq<Parsed>) -> Seq<ParsedView> {
    v.map_values(|p: Parsed| p@)
}

/// A loaded compilation database: one compile command per source file,
/// in document order.
#[derive(Debug)]
pub struct CompilationDatabase {
    pub commands: Vec<Parsed>,
}

/// Reads one element's row.
fn read_row(v: &serde_json::Value) -> (r: Option<Command>)
    ensures
        match r {
            Some(c) => row_of(*v) == Some(c@),
            None => row_of(*v) is None,
        },
{
    let command_value = match value_member(v, "command") {
        Some(m) => m,
        None => { return None },
    };
    let command = match value_text(command_value) {
        Some(s) => s,
        None => { return None },
    };
    let file_value = match value_member(v, "file") {
        Some(m) => m,
        None => { return None },
    };
    let file = match value_text(file_value) {
        Some(s) => s,
        None => { return None },
    };
    Some(Command { command: command.to_owned(), file: file.to_owned() })
}

impl CompilationDatabase {
    /// Decodes a compilation-database document.
    ///
    /// Returns the compile commands the document denotes, each command
    /// string split on whitespace into its argument vector, in document
    /// order; or the exact error the document earns: `InvalidJson` for
    /// text that is not JSON, `NotAnArray` for a document that is no
    /// array, `InvalidEntry` for an element that is no object with
    /// string members `"command"` and `"file"`.
    pub fn new(text: &str) -> (r: Result<CompilationDatabase, LoadError>)
        ensures
            match r {
                Ok(database) => database_of(text@) == Ok::<_, LoadError>(
                    commands_view(database.commands@),
                ),
                Err(e) => database_of(text@) == Err::<Seq<ParsedView>, _>(e),
            },
    {
        let doc = match parse_json(text) {
            Some(doc) => doc,
            None => { return Err(LoadError::InvalidJson) },
        };
        let items = match value_items(&doc) {
            Some(items) => items,
            None => { return Err(LoadError::NotAnArray) },
        };
        let ghost all = json_items(doc)->Some_0;
        let mut commands: Vec<Parsed> = Vec::new();
        let mut i: usize = 0;
        proof {
            assert(all.skip(0) =~= all);
            assert(commands_view(commands@) =~= Seq::<ParsedView>::empty());
            if rows_of(all) is Ok {
                assert(commands_view(commands@) + rows_of(all)->Ok_0 =~= rows_of(all)->Ok_0);
            }
        }
        while i < items.len()
            invariant
                i <= items@.len(),
                items@ == all,
                json_parsed(text@) == Some(doc),
                json_items(doc) == Some(all),
                rows_of(all) == match rows_of(all.skip(i as int)) {
                    Err(e) => Err::<Seq<ParsedView>, LoadError>(e),
                    Ok(rest) => Ok(commands_view(commands@) + rest),
                },
            decreases items@.len() - i,
        {
            let ghost remaining = all.skip(i as int);
            proof {
                assert(remaining[0] == all[i as int]);
                assert(remaining.drop_first() =~= all.skip(i as int + 1));
            }
            let row = match read_row(&items[i]) {
                Some(row) => row,
                None => {
                    proof {
                        assert(rows_of(remaining) == Err::<Seq<ParsedView>, _>(
                            LoadError::InvalidEntry,
                        ));
                    }
                    return Err(LoadError::InvalidEntry)
                },
            };
            let parsed = row.into_parsed();
            let ghost before = commands@;
            commands.push(parsed);
            proof {
                assert(commands_view(before.push(parsed)) =~= commands_view(before) + seq![
                    parsed@,
                ]);
                if rows_of(remaining.drop_first()) is Ok {
                    assert(commands_view(before) + (seq![parsed@]
                        + rows_of(remaining.drop_first())->Ok_0) =~= (commands_view(before)
                        + seq![parsed@]) + rows_of(remaining.drop_first())->Ok_0);
                }
            }
            i += 1;
        }
        proof {
            assert(all.skip(i as int) =~= Seq::<serde_json::Value>::empty());
            assert(commands_view(commands@) + Seq::<ParsedView>::empty() =~= commands_view(
                commands@,
            ));
        }
        Ok(CompilationDatabase { commands })
    }
}

} // verus!
