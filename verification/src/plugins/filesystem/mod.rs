//! The file system plugin: commands that write, read and list the agent's
//! files, and a hook that names the saved files in every prompt. What is
//! written and read is decided here; the host writes and reads.

use vstd::prelude::*;
use crate::args::ArgumentMap;
use crate::command::{works_as, Command, CommandContext, CommandImpl};
use crate::cycle::{cycles_as, LLMResponse, PluginCycle};
use crate::data::PluginData;
use crate::error::{
    fails_with, io_failure, missing_argument, missing_info_text, unexpected_reply,
    unexpected_reply_text, ErrorView, PluginError,
};
use crate::host::{HostReply, HostRequest, RequestView, Step};
use crate::payload::Payload;
use crate::plugin::{parameter, parameter_views, Plugin};
use crate::text::{appended, join, joined, split_prefix, trim_prefix, views, without_prefix};

verus! {

/// A file command was run without a parameter that it needs.
#[derive(Debug, Clone)]
pub struct FilesNoQueryError;

impl FilesNoQueryError {
    /// What the failure reads as.
    pub fn message(&self) -> (r: String)
        ensures
            r@ == missing_info_text("file"@),
    {
        let head = appended("one of the '", "file");
        appended(head.as_str(), "' commands did not receive enough info.")
    }

    /// The failure as a command reports it, for the parameter that is missing.
    pub fn about(&self, parameter: &str) -> (e: PluginError)
        ensures
            e@ == missing_file_argument(parameter@),
    {
        missing_argument("file", parameter)
    }
}

/// The value of the parameter `parameter` of a file command, or the failure
/// of the command where `args` has none.
pub fn file_argument<'a>(args: &'a ArgumentMap, parameter: &str) -> (r: Result<
    &'a String,
    PluginError,
>)
    ensures
        match r {
            Ok(value) => args@.contains_key(parameter@) && value@ == args@[parameter@],
            Err(e) => !args@.contains_key(parameter@) && e@ == missing_file_argument(parameter@),
        },
{
    match args.get(parameter) {
        Some(value) => Ok(value),
        None => Err(FilesNoQueryError.about(parameter)),
    }
}

/// The failure of a file command that was run without `parameter`.
pub open spec fn missing_file_argument(parameter: Seq<char>) -> ErrorView {
    ErrorView::MissingArgument { family: "file"@, parameter }
}

/// The name of the file that `path` means: `path` without `./files/`
/// where that stands in front, and else without one leading `files/`. So
/// `notes`, `files/notes` and `./files/notes` mean one file, for a write as
/// for a read; every other path is taken as it is.
pub open spec fn file_name(path: Seq<char>) -> Seq<char> {
    if "./files/"@.is_prefix_of(path) {
        path.skip("./files/"@.len() as int)
    } else {
        without_prefix(path, "files/"@)
    }
}

/// The name of the file that `path` means.
pub fn name_of_file(path: &str) -> (r: &str)
    ensures
        r@ == file_name(path@),
{
    match split_prefix(path, "./files/") {
        Some(rest) => rest,
        None => trim_prefix(path, "files/"),
    }
}

/// The file that a write to `path` goes to.
pub open spec fn write_target(path: Seq<char>) -> Seq<char> {
    "./files/"@ + file_name(path)
}

/// What a write of `content` to `path` reports once it is done.
pub open spec fn write_report(path: Seq<char>, content: Seq<char>) -> Seq<char> {
    "Successfully wrote to file "@ + file_name(path) + ": "@ + content
}

/// The file that a read of `path` takes its text from: the one that a
/// write to `path` goes to.
pub open spec fn read_target(path: Seq<char>) -> Seq<char> {
    "files/"@ + file_name(path)
}

/// What the listing command reports for these entries.
pub open spec fn list_report(entries: Seq<Seq<char>>) -> Seq<char> {
    "All files: "@ + joined(entries, ", "@)
}

/// What the plugin adds to a prompt when these files are saved.
pub open spec fn files_context(entries: Seq<Seq<char>>) -> Seq<char> {
    if entries.len() == 0 {
        "Files: No saved files."@
    } else {
        "Files: "@ + joined(entries, ", "@) + " (Consider reading these.)"@
    }
}

/// The failure that a write or append without `path` or `content` comes to:
/// the one for `path` where both are missing.
pub open spec fn write_fault(args: Map<Seq<char>, Seq<char>>) -> Option<ErrorView> {
    if !args.contains_key("path"@) {
        Some(missing_file_argument("path"@))
    } else if !args.contains_key("content"@) {
        Some(missing_file_argument("content"@))
    } else {
        None
    }
}

/// What the host is asked to do for a write or an append with these arguments.
pub open spec fn write_request(args: Map<Seq<char>, Seq<char>>, append: bool) -> RequestView {
    RequestView::Write {
        path: write_target(args["path"@]),
        data: args["content"@] + "\n"@,
        append,
    }
}

/// Whether `r` is what a write or an append with `args` comes to at first:
/// the request to the host, or the failure for the argument that is missing.
pub open spec fn write_step(
    args: Map<Seq<char>, Seq<char>>,
    append: bool,
    r: Result<Step<String>, PluginError>,
) -> bool {
    match r {
        Ok(step) => write_fault(args).is_none() && step.asks(write_request(args, append)),
        Err(e) => write_fault(args) == Some(e@),
    }
}

/// Whether `r` is what a write or an append with `args` comes to on the
/// host's answer `reply`: the report where the host has written, the host's
/// failure where it has failed, and the failure for the argument that is
/// missing before either.
pub open spec fn written_outcome(
    args: Map<Seq<char>, Seq<char>>,
    reply: HostReply,
    r: Result<String, PluginError>,
) -> bool {
    match write_fault(args) {
        Some(fault) => fails_with(r, fault),
        None => match reply {
            HostReply::Written => r matches Ok(text) && text@ == write_report(
                args["path"@],
                args["content"@],
            ),
            HostReply::Failed(detail) => fails_with(r, ErrorView::Io { detail: detail@ }),
            _ => fails_with(r, ErrorView::Io { detail: unexpected_reply_text() }),
        },
    }
}

/// Whether `r` is what the listing comes to at first.
pub open spec fn list_step(r: Result<Step<String>, PluginError>) -> bool {
    r matches Ok(step) && step.asks(RequestView::List { directory: "memory"@ })
}

/// Whether `r` is what the listing comes to on the host's answer `reply`.
pub open spec fn listed_outcome(reply: HostReply, r: Result<String, PluginError>) -> bool {
    match reply {
        HostReply::Entries(entries) => r matches Ok(text) && text@ == list_report(views(entries@)),
        HostReply::Failed(detail) => fails_with(r, ErrorView::Io { detail: detail@ }),
        _ => fails_with(r, ErrorView::Io { detail: unexpected_reply_text() }),
    }
}

/// Whether `r` is what a read with `args` comes to at first.
pub open spec fn read_step(
    args: Map<Seq<char>, Seq<char>>,
    r: Result<Step<String>, PluginError>,
) -> bool {
    match r {
        Ok(step) => args.contains_key("path"@) && step.asks(
            RequestView::Read { path: read_target(args["path"@]) },
        ),
        Err(e) => !args.contains_key("path"@) && e@ == missing_file_argument("path"@),
    }
}

/// Whether `r` is what a read with `args` comes to on the host's answer
/// `reply`: the text of the file as it is, or a failure.
pub open spec fn read_outcome(
    args: Map<Seq<char>, Seq<char>>,
    reply: HostReply,
    r: Result<String, PluginError>,
) -> bool {
    if !args.contains_key("path"@) {
        fails_with(r, missing_file_argument("path"@))
    } else {
        match reply {
            HostReply::Text(content) => r == Ok::<String, PluginError>(content),
            HostReply::Failed(detail) => fails_with(r, ErrorView::Io { detail: detail@ }),
            _ => fails_with(r, ErrorView::Io { detail: unexpected_reply_text() }),
        }
    }
}

/// Writes the argument `content`, as one line, to the file named by the
/// argument `path`: behind what the file holds where `append` is set, in
/// place of it where it is not. Nothing is written here: the result is the
/// request to the host.
pub fn file_write(ctx: &mut CommandContext, args: &ArgumentMap, append: bool) -> (r: Result<
    Step<String>,
    PluginError,
>)
    ensures
        *final(ctx) == *old(ctx),
        write_step(args@, append, r),
{
    let path = file_argument(args, "path")?;
    let content = file_argument(args, "content")?;
    let target = appended("./files/", name_of_file(path.as_str()));
    let data = appended(content.as_str(), "\n");
    Ok(Step::Ask(HostRequest::Write { path: target, data, append }))
}

/// What a write or an append comes to once the host has answered: the
/// report of what was written, or the host's failure.
pub fn file_written(args: &ArgumentMap, reply: HostReply) -> (r: Result<String, PluginError>)
    ensures
        written_outcome(args@, reply, r),
{
    let path = file_argument(args, "path")?;
    let content = file_argument(args, "content")?;
    match reply {
        HostReply::Written => {
            let a = appended("Successfully wrote to file ", name_of_file(path.as_str()));
            let b = appended(a.as_str(), ": ");
            Ok(appended(b.as_str(), content.as_str()))
        },
        HostReply::Failed(detail) => Err(io_failure(detail.as_str())),
        _ => Err(unexpected_reply()),
    }
}

/// Lists the agent's working memory. Nothing is read here: the result is
/// the request to the host.
pub fn file_list(ctx: &mut CommandContext, args: &ArgumentMap) -> (r: Result<
    Step<String>,
    PluginError,
>)
    ensures
        *final(ctx) == *old(ctx),
        list_step(r),
{
    Ok(Step::Ask(HostRequest::List { directory: "memory".to_string() }))
}

/// What the listing comes to once the host has answered.
pub fn file_listed(reply: HostReply) -> (r: Result<String, PluginError>)
    ensures
        listed_outcome(reply, r),
{
    match reply {
        HostReply::Entries(entries) => {
            let names = join(&entries, ", ");
            Ok(appended("All files: ", names.as_str()))
        },
        HostReply::Failed(detail) => Err(io_failure(detail.as_str())),
        _ => Err(unexpected_reply()),
    }
}

/// Reads the file named by the argument `path`: the file that a write to
/// the same path goes to. Nothing is read here: the result is the request
/// to the host.
pub fn file_read(ctx: &mut CommandContext, args: &ArgumentMap) -> (r: Result<
    Step<String>,
    PluginError,
>)
    ensures
        *final(ctx) == *old(ctx),
        read_step(args@, r),
{
    let path = file_argument(args, "path")?;
    Ok(Step::Ask(HostRequest::Read { path: appended("files/", name_of_file(path.as_str())) }))
}

/// What a read comes to once the host has answered: the text of the file
/// as it is, or the host's failure.
pub fn file_read_done(args: &ArgumentMap, reply: HostReply) -> (r: Result<String, PluginError>)
    ensures
        read_outcome(args@, reply, r),
{
    let _ = file_argument(args, "path")?;
    match reply {
        HostReply::Text(content) => Ok(content),
        HostReply::Failed(detail) => Err(io_failure(detail.as_str())),
        _ => Err(unexpected_reply()),
    }
}

/// The work behind `file-write`.
pub struct FileWriteImpl;

impl CommandImpl for FileWriteImpl {
    open spec fn needs(&self, parameter: &str) -> bool {
        parameter@ == "path"@ || parameter@ == "content"@
    }

    open spec fn invokes(
        &self,
        before: &CommandContext,
        after: &CommandContext,
        args: &ArgumentMap,
        r: Result<Step<String>, PluginError>,
    ) -> bool {
        *after == *before && write_step(args@, false, r)
    }

    open spec fn resumes(
        &self,
        before: &CommandContext,
        after: &CommandContext,
        args: &ArgumentMap,
        reply: HostReply,
        r: Result<String, PluginError>,
    ) -> bool {
        *after == *before && written_outcome(args@, reply, r)
    }

    fn invoke(&self, ctx: &mut CommandContext, args: &ArgumentMap) -> (r: Result<
        Step<String>,
        PluginError,
    >) {
        file_write(ctx, args, false)
    }

    fn resume(&self, ctx: &mut CommandContext, args: &ArgumentMap, reply: HostReply) -> (r:
        Result<String, PluginError>) {
        file_written(args, reply)
    }
}

/// The work behind `file-append`.
pub struct FileAppendImpl;

impl CommandImpl for FileAppendImpl {
    open spec fn needs(&self, parameter: &str) -> bool {
        parameter@ == "path"@ || parameter@ == "content"@
    }

    open spec fn invokes(
        &self,
        before: &CommandContext,
        after: &CommandContext,
        args: &ArgumentMap,
        r: Result<Step<String>, PluginError>,
    ) -> bool {
        *after == *before && write_step(args@, true, r)
    }

    open spec fn resumes(
        &self,
        before: &CommandContext,
        after: &CommandContext,
        args: &ArgumentMap,
        reply: HostReply,
        r: Result<String, PluginError>,
    ) -> bool {
        *after == *before && written_outcome(args@, reply, r)
    }

    fn invoke(&self, ctx: &mut CommandContext, args: &ArgumentMap) -> (r: Result<
        Step<String>,
        PluginError,
    >) {
        file_write(ctx, args, true)
    }

    fn resume(&self, ctx: &mut CommandContext, args: &ArgumentMap, reply: HostReply) -> (r:
        Result<String, PluginError>) {
        file_written(args, reply)
    }
}

/// The work behind `file-list`.
pub struct FileListImpl;

impl CommandImpl for FileListImpl {
    open spec fn needs(&self, parameter: &str) -> bool {
        false
    }

    open spec fn invokes(
        &self,
        before: &CommandContext,
        after: &CommandContext,
        args: &ArgumentMap,
        r: Result<Step<String>, PluginError>,
    ) -> bool {
        *after == *before && list_step(r)
    }

    open spec fn resumes(
        &self,
        before: &CommandContext,
        after: &CommandContext,
        args: &ArgumentMap,
        reply: HostReply,
        r: Result<String, PluginError>,
    ) -> bool {
        *after == *before && listed_outcome(reply, r)
    }

    fn invoke(&self, ctx: &mut CommandContext, args: &ArgumentMap) -> (r: Result<
        Step<String>,
        PluginError,
    >) {
        file_list(ctx, args)
    }

    fn resume(&self, ctx: &mut CommandContext, args: &ArgumentMap, reply: HostReply) -> (r:
        Result<String, PluginError>) {
        file_listed(reply)
    }
}

/// The work behind `file-read`.
pub struct FileReadImpl;

impl CommandImpl for FileReadImpl {
    open spec fn needs(&self, parameter: &str) -> bool {
        parameter@ == "path"@
    }

    open spec fn invokes(
        &self,
        before: &CommandContext,
        after: &CommandContext,
        args: &ArgumentMap,
        r: Result<Step<String>, PluginError>,
    ) -> bool {
        *after == *before && read_step(args@, r)
    }

    open spec fn resumes(
        &self,
        before: &CommandContext,
        after: &CommandContext,
        args: &ArgumentMap,
        reply: HostReply,
        r: Result<String, PluginError>,
    ) -> bool {
        *after == *before && read_outcome(args@, reply, r)
    }

    fn invoke(&self, ctx: &mut CommandContext, args: &ArgumentMap) -> (r: Result<
        Step<String>,
        PluginError,
    >) {
        file_read(ctx, args)
    }

    fn resume(&self, ctx: &mut CommandContext, args: &ArgumentMap, reply: HostReply) -> (r:
        Result<String, PluginError>) {
        file_read_done(args, reply)
    }
}

/// What the plugin adds to a prompt when the host has found these files.
pub fn files_prompt(entries: &Vec<String>) -> (r: String)
    ensures
        r@ == files_context(views(entries@)),
{
    if entries.len() == 0 {
        "Files: No saved files.".to_string()
    } else {
        let names = join(entries, ", ");
        let head = appended("Files: ", names.as_str());
        appended(head.as_str(), " (Consider reading these.)")
    }
}

/// Whether `r` is what the hook comes to at first: the request for the
/// saved files.
pub open spec fn context_step(r: Result<Step<Option<String>>, PluginError>) -> bool {
    r matches Ok(step) && step.asks(RequestView::List { directory: "files"@ })
}

/// Whether `r` is what the hook comes to on the host's answer `reply`: the
/// saved files named for the prompt, or the host's failure.
pub open spec fn context_outcome(reply: HostReply, r: Result<Option<String>, PluginError>) -> bool {
    match reply {
        HostReply::Entries(entries) => r matches Ok(Some(text)) && text@ == files_context(
            views(entries@),
        ),
        HostReply::Failed(detail) => fails_with(r, ErrorView::Io { detail: detail@ }),
        _ => fails_with(r, ErrorView::Io { detail: unexpected_reply_text() }),
    }
}

/// The lifecycle hooks of the file system plugin.
pub struct FileCycle;

impl PluginCycle for FileCycle {
    /// The hook asks the host for the saved files.
    open spec fn contributes(
        &self,
        before: &CommandContext,
        after: &CommandContext,
        previous_prompt: Option<&str>,
        r: Result<Step<Option<String>>, PluginError>,
    ) -> bool {
        *after == *before && context_step(r)
    }

    open spec fn continues(
        &self,
        before: &CommandContext,
        after: &CommandContext,
        previous_prompt: Option<&str>,
        reply: HostReply,
        r: Result<Option<String>, PluginError>,
    ) -> bool {
        *after == *before && context_outcome(reply, r)
    }

    open spec fn removes(
        &self,
        before: &CommandContext,
        after: &CommandContext,
        response: &LLMResponse,
        cmd_output: &str,
        previous_response: bool,
        r: Result<(), PluginError>,
    ) -> bool {
        r is Ok && *after == *before
    }

    /// The plugin offers no capability.
    open spec fn offers(&self, value: Payload) -> bool {
        false
    }

    fn create_context(&self, context: &mut CommandContext, previous_prompt: Option<&str>) -> (r:
        Result<Step<Option<String>>, PluginError>)
    {
        Ok(Step::Ask(HostRequest::List { directory: "files".to_string() }))
    }

    fn resume_context(
        &self,
        context: &mut CommandContext,
        previous_prompt: Option<&str>,
        reply: HostReply,
    ) -> (r: Result<Option<String>, PluginError>)
    {
        match reply {
            HostReply::Entries(entries) => Ok(Some(files_prompt(&entries))),
            HostReply::Failed(detail) => Err(io_failure(detail.as_str())),
            _ => Err(unexpected_reply()),
        }
    }

    fn apply_removed_response(
        &self,
        context: &mut CommandContext,
        response: &LLMResponse,
        cmd_output: &str,
        previous_response: bool,
    ) -> (r: Result<(), PluginError>)
    {
        Ok(())
    }

    fn create_data(&self, value: &Payload) -> (r: Option<Box<dyn PluginData>>) {
        None
    }
}

/// The command `file-write`, with the work of `FileWriteImpl` behind it.
pub fn write_command() -> (c: Command)
    ensures
        c.describes(
            "file-write"@,
            "Override a file with content. Just use a raw file name, no folders or extensions, like 'cheese salad'."@,
            seq![
                ("path"@, "The path of the file that is being written to."@),
                ("content"@, "The content to be overriden in the file."@),
            ],
        ),
        works_as(&c.run, FileWriteImpl),
{
    let mut args: Vec<(String, String)> = Vec::new();
    args.push(parameter("path", "The path of the file that is being written to."));
    args.push(parameter("content", "The content to be overriden in the file."));
    proof {
        assert(parameter_views(args@) =~= seq![
            ("path"@, "The path of the file that is being written to."@),
            ("content"@, "The content to be overriden in the file."@),
        ]);
    }
    Command {
        name: "file-write".to_string(),
        purpose: "Override a file with content. Just use a raw file name, no folders or extensions, like 'cheese salad'.".to_string(),
        args,
        run: Box::new(FileWriteImpl),
    }
}

/// The command `file-append`, with the work of `FileAppendImpl` behind it.
pub fn append_command() -> (c: Command)
    ensures
        c.describes(
            "file-append"@,
            "Add content to an existing file. Just use a raw file name, no folders or extensions, like 'cheese salad'."@,
            seq![
                ("path"@, "The path of the file that is being written to."@),
                ("content"@, "The content to be appended to the file."@),
            ],
        ),
        works_as(&c.run, FileAppendImpl),
{
    let mut args: Vec<(String, String)> = Vec::new();
    args.push(parameter("path", "The path of the file that is being written to."));
    args.push(parameter("content", "The content to be appended to the file."));
    proof {
        assert(parameter_views(args@) =~= seq![
            ("path"@, "The path of the file that is being written to."@),
            ("content"@, "The content to be appended to the file."@),
        ]);
    }
    Command {
        name: "file-append".to_string(),
        purpose: "Add content to an existing file. Just use a raw file name, no folders or extensions, like 'cheese salad'.".to_string(),
        args,
        run: Box::new(FileAppendImpl),
    }
}

/// The command `file-list`, with the work of `FileListImpl` behind it.
pub fn list_command() -> (c: Command)
    ensures
        c.describes("file-list"@, "List all of your files."@, seq![]),
        works_as(&c.run, FileListImpl),
{
    let args: Vec<(String, String)> = Vec::new();
    proof {
        assert(parameter_views(args@) =~= seq![]);
    }
    Command {
        name: "file-list".to_string(),
        purpose: "List all of your files.".to_string(),
        args,
        run: Box::new(FileListImpl),
    }
}

/// The command `file-read`, with the work of `FileReadImpl` behind it.
pub fn read_command() -> (c: Command)
    ensures
        c.describes(
            "file-read"@,
            "Read a file."@,
            seq![("path"@, "The path of the file that is read."@)],
        ),
        works_as(&c.run, FileReadImpl),
{
    let mut args: Vec<(String, String)> = Vec::new();
    args.push(parameter("path", "The path of the file that is read."));
    proof {
        assert(parameter_views(args@) =~= seq![("path"@, "The path of the file that is read."@)]);
    }
    Command {
        name: "file-read".to_string(),
        purpose: "Read a file.".to_string(),
        args,
        run: Box::new(FileReadImpl),
    }
}

/// The file system plugin: no dependencies, no capability, the hooks of
/// `FileCycle`, and the commands `file-write`, `file-append`, `file-list`
/// and `file-read`, each with its own work behind it.
pub fn create_filesystem() -> (r: Plugin)
    ensures
        r.name@ == "File System"@,
        r.dependencies@.len() == 0,
        cycles_as(&r.cycle, FileCycle),
        r.commands@.len() == 4,
        r.commands@[0].describes(
            "file-write"@,
            "Override a file with content. Just use a raw file name, no folders or extensions, like 'cheese salad'."@,
            seq![
                ("path"@, "The path of the file that is being written to."@),
                ("content"@, "The content to be overriden in the file."@),
            ],
        ),
        works_as(&r.commands@[0].run, FileWriteImpl),
        r.commands@[1].describes(
            "file-append"@,
            "Add content to an existing file. Just use a raw file name, no folders or extensions, like 'cheese salad'."@,
            seq![
                ("path"@, "The path of the file that is being written to."@),
                ("content"@, "The content to be appended to the file."@),
            ],
        ),
        works_as(&r.commands@[1].run, FileAppendImpl),
        r.commands@[2].describes("file-list"@, "List all of your files."@, seq![]),
        works_as(&r.commands@[2].run, FileListImpl),
        r.commands@[3].describes(
            "file-read"@,
            "Read a file."@,
            seq![("path"@, "The path of the file that is read."@)],
        ),
        works_as(&r.commands@[3].run, FileReadImpl),
{
    let mut commands: Vec<Command> = Vec::new();
    commands.push(write_command());
    commands.push(append_command());
    commands.push(list_command());
    commands.push(read_command());
    Plugin {
        name: "File System".to_string(),
        dependencies: Vec::new(),
        cycle: Box::new(FileCycle),
        commands,
    }
}

} // verus!
