//! The news plugin: one command that searches for news articles. It keeps
//! the key of the news service as its capability, and has the `Browse`
//! plugin fetch the answer.

use vstd::prelude::*;
use crate::args::ArgumentMap;
use crate::command::{works_as, Command, CommandContext, CommandImpl};
use crate::cycle::{cycles_as, LLMResponse, PluginCycle};
use crate::data::{invoke, invoked, same_capability, PluginData, PluginStore};
use crate::error::{
    fails_with, missing_argument, missing_info_text, not_registered, not_supported,
    unexpected_reply, unexpected_reply_text, ErrorView, PluginError,
};
use crate::host::{HostReply, Step};
use crate::payload::{field_of, Decode, Encode, Payload};
use crate::plugin::{parameter, parameter_views, Plugin};
use crate::plugins::browse::BrowseRequest;
use crate::text::{appended, same_text, views};

verus! {

/// A news command was run without a parameter that it needs.
#[derive(Debug, Clone)]
pub struct NewsNoQueryError;

impl NewsNoQueryError {
    /// What the failure reads as.
    pub fn message(&self) -> (r: String)
        ensures
            r@ == missing_info_text("news"@),
    {
        let head = appended("one of the '", "news");
        appended(head.as_str(), "' commands did not receive enough info.")
    }

    /// The failure as a command reports it, for the parameter that is missing.
    pub fn about(&self, parameter: &str) -> (e: PluginError)
        ensures
            e@ == missing_news_argument(parameter@),
    {
        missing_argument("news", parameter)
    }
}

/// The value of the parameter `parameter` of a news command, or the failure
/// of the command where `args` has none.
pub fn news_argument<'a>(args: &'a ArgumentMap, parameter: &str) -> (r: Result<
    &'a String,
    PluginError,
>)
    ensures
        match r {
            Ok(value) => args@.contains_key(parameter@) && value@ == args@[parameter@],
            Err(e) => !args@.contains_key(parameter@) && e@ == missing_news_argument(parameter@),
        },
{
    match args.get(parameter) {
        Some(value) => Ok(value),
        None => Err(NewsNoQueryError.about(parameter)),
    }
}

/// The failure of a news command that was run without `parameter`.
pub open spec fn missing_news_argument(parameter: Seq<char>) -> ErrorView {
    ErrorView::MissingArgument { family: "news"@, parameter }
}

/// The parameters of a search for `query` with the key `api_key`.
pub open spec fn search_params(api_key: Seq<char>, query: Seq<char>) -> Seq<(Seq<char>, Seq<char>)> {
    seq![("apiKey"@, api_key), ("pageSize"@, "7"@), ("q"@, query)]
}

/// Whether `request` is the search for `query` with the key `api_key`: the
/// address of the news service with the key, the size of a page and the query.
pub open spec fn is_search(request: BrowseRequest, api_key: Seq<char>, query: Seq<char>) -> bool {
    &&& request.url@ == "https://newsapi.org/v2/everything"@
    &&& parameter_views(request.params@) == search_params(api_key, query)
}

/// What the `Browse` plugin is asked to fetch for a search.
pub fn browse_request(api_key: &str, query: &str) -> (r: BrowseRequest)
    ensures
        is_search(r, api_key@, query@),
{
    let mut params: Vec<(String, String)> = Vec::new();
    params.push(parameter("apiKey", api_key));
    params.push(parameter("pageSize", "7"));
    params.push(parameter("q", query));
    proof {
        assert(parameter_views(params@) =~= search_params(api_key@, query@));
    }
    BrowseRequest { url: "https://newsapi.org/v2/everything".to_string(), params }
}

/// What follows the answer to the question for the key: the failure of
/// that answer as it is; without a `Browse` capability the failure of the
/// lookup; and else the search that `Browse` is asked to fetch.
pub fn search_request(has_browse: bool, key: Result<String, PluginError>, query: &str) -> (r:
    Result<BrowseRequest, PluginError>)
    ensures
        match key {
            Err(e) => r == Err::<BrowseRequest, PluginError>(e),
            Ok(k) => if has_browse {
                r matches Ok(request) && is_search(request, k@, query@)
            } else {
                fails_with(r, ErrorView::PluginNotRegistered { plugin: "Browse"@ })
            },
        },
{
    match key {
        Err(e) => Err(e),
        Ok(k) => {
            if has_browse {
                Ok(browse_request(k.as_str(), query))
            } else {
                Err(not_registered("Browse"))
            }
        },
    }
}

/// Whether a search may come to `r` and leave the capabilities as `after`
/// once the key's answer, read as a text, is `key`, with the capabilities
/// of `store`. A failure of the key's answer is the result, and so is the
/// failure of the lookup of `Browse`; in both every capability but that of
/// `NewsAPI` is as it was. Else the result is an answer of `Browse` to the
/// operation `browse` on the search, read as a text, and every capability
/// but those of `NewsAPI` and `Browse` is as it was.
pub open spec fn after_key(
    store: &PluginStore,
    after: &PluginStore,
    query: Seq<char>,
    key: Result<String, PluginError>,
    r: Result<String, PluginError>,
) -> bool {
    match key {
        Err(e) => r == Err::<String, PluginError>(e) && store.same_but(*after, "NewsAPI"@),
        Ok(k) => if !store.contains("Browse"@) {
            fails_with(r, ErrorView::PluginNotRegistered { plugin: "Browse"@ }) && store.same_but(
                *after,
                "NewsAPI"@,
            )
        } else {
            store.same_beside(*after, "NewsAPI"@, "Browse"@) && exists|request: BrowseRequest|
                is_search(request, k@, query) && #[trigger] invoked::<String, BrowseRequest>(
                    store.data_of("Browse"@),
                    "browse",
                    request,
                    r,
                )
        },
    }
}

/// Whether a search for `query` may come to `r` and leave the capabilities
/// as `after`, with the capabilities of `store`: without a `NewsAPI`
/// capability the failure of the lookup, and nothing is changed; else what
/// follows an answer of `NewsAPI` to the operation `get api key`, read as a
/// text. The names under which capabilities are kept stay.
pub open spec fn search_outcome(
    store: &PluginStore,
    after: &PluginStore,
    query: Seq<char>,
    r: Result<String, PluginError>,
) -> bool {
    if !store.contains("NewsAPI"@) {
        fails_with(r, ErrorView::PluginNotRegistered { plugin: "NewsAPI"@ }) && *after == *store
    } else {
        after.names() == store.names() && exists|key: Result<String, PluginError>| #[trigger]
            invoked::<String, bool>(store.data_of("NewsAPI"@), "get api key", true, key)
                && after_key(store, after, query, key, r)
    }
}

/// Searches for news on `query`: asks the capability of `NewsAPI` for its
/// key, has the capability of `Browse` fetch the search, and gives back what
/// came, unchanged. A capability that is not registered, an operation that
/// one of them does not have and an answer that is no text are failures.
pub fn ask_news(ctx: &mut CommandContext, query: &str) -> (r: Result<String, PluginError>)
    ensures
        search_outcome(&old(ctx).plugin_data, &final(ctx).plugin_data, query@, r),
        !old(ctx).plugin_data.contains("NewsAPI"@) ==> *final(ctx) == *old(ctx),
{
    proof {
        reveal_strlit("NewsAPI");
        reveal_strlit("Browse");
        assert("NewsAPI"@.len() != "Browse"@.len());
    }
    let ghost store = old(ctx).plugin_data;
    let news_info = ctx.plugin_data.get_data("NewsAPI")?;
    let key = invoke::<String, bool>(news_info, "get api key", &true);
    let ghost answered = key;
    let has_browse = ctx.plugin_data.has_data("Browse");
    let ghost middle = ctx.plugin_data;
    proof {
        assert(invoked::<String, bool>(store.data_of("NewsAPI"@), "get api key", true, answered));
        if has_browse {
            assert(store.contains("Browse"@));
            assert(middle.data_of("Browse"@) == store.data_of("Browse"@));
        }
    }
    let request = match search_request(has_browse, key, query) {
        Ok(request) => request,
        Err(e) => {
            proof {
                assert(after_key(&store, &middle, query@, answered, Err(e)));
            }
            return Err(e);
        },
    };
    let browse_info = ctx.plugin_data.get_data("Browse")?;
    let json = invoke::<String, BrowseRequest>(browse_info, "browse", &request);
    proof {
        let last = ctx.plugin_data;
        assert(invoked::<String, BrowseRequest>(store.data_of("Browse"@), "browse", request, json));
        assert forall|kept: Seq<char>|
            kept != "NewsAPI"@ && kept != "Browse"@ && #[trigger] store.contains(
                kept,
            ) implies last.contains(kept) && last.data_of(kept) == store.data_of(kept) by {
            assert(middle.contains(kept));
        }
        assert(after_key(&store, &last, query@, answered, json));
    }
    json
}

/// Whether the `news-search` command may come to `r` on `args` and leave
/// the capabilities as `after`: without `query` the failure for it, and
/// nothing is changed; else what the search for it comes to.
pub open spec fn news_outcome(
    store: &PluginStore,
    after: &PluginStore,
    args: Map<Seq<char>, Seq<char>>,
    r: Result<String, PluginError>,
) -> bool {
    if !args.contains_key("query"@) {
        fails_with(r, missing_news_argument("query"@)) && *after == *store
    } else {
        search_outcome(store, after, args["query"@], r)
    }
}

/// The `news-search` command: searches for news on the argument `query`.
pub fn news(ctx: &mut CommandContext, args: &ArgumentMap) -> (r: Result<String, PluginError>)
    ensures
        news_outcome(&old(ctx).plugin_data, &final(ctx).plugin_data, args@, r),
        !args@.contains_key("query"@) || !old(ctx).plugin_data.contains("NewsAPI"@) ==> *final(ctx)
            == *old(ctx),
{
    let query = news_argument(args, "query")?;
    ask_news(ctx, query.as_str())
}

/// Whether `r` is the text `text` as the outcome of a command that is done
/// without the host.
pub open spec fn done_with(
    text: Result<String, PluginError>,
    r: Result<Step<String>, PluginError>,
) -> bool {
    match text {
        Ok(t) => r == Ok::<Step<String>, PluginError>(Step::Done(t)),
        Err(e) => r == Err::<Step<String>, PluginError>(e),
    }
}

/// The work behind `news-search`.
pub struct NewsImpl;

impl CommandImpl for NewsImpl {
    open spec fn needs(&self, parameter: &str) -> bool {
        parameter@ == "query"@
    }

    /// The command is done without the host, with what `news` comes to.
    open spec fn invokes(
        &self,
        before: &CommandContext,
        after: &CommandContext,
        args: &ArgumentMap,
        r: Result<Step<String>, PluginError>,
    ) -> bool {
        exists|text: Result<String, PluginError>| #[trigger]
            news_outcome(&before.plugin_data, &after.plugin_data, args@, text) && done_with(
                text,
                r,
            )
    }

    /// The command asks nothing of the host, so there is no answer to go
    /// on with: it fails.
    open spec fn resumes(
        &self,
        before: &CommandContext,
        after: &CommandContext,
        args: &ArgumentMap,
        reply: HostReply,
        r: Result<String, PluginError>,
    ) -> bool {
        *after == *before && if args@.contains_key("query"@) {
            fails_with(r, ErrorView::Io { detail: unexpected_reply_text() })
        } else {
            fails_with(r, missing_news_argument("query"@))
        }
    }

    fn invoke(&self, ctx: &mut CommandContext, args: &ArgumentMap) -> (r: Result<
        Step<String>,
        PluginError,
    >)
        ensures
            !args@.contains_key("query"@) || !old(ctx).plugin_data.contains("NewsAPI"@)
                ==> *final(ctx) == *old(ctx),
    {
        let text = news(ctx, args);
        let ghost came = text;
        let r = match text {
            Ok(response) => Ok(Step::Done(response)),
            Err(e) => Err(e),
        };
        proof {
            assert(news_outcome(&old(ctx).plugin_data, &ctx.plugin_data, args@, came) && done_with(
                came,
                r,
            ));
        }
        r
    }

    fn resume(&self, ctx: &mut CommandContext, args: &ArgumentMap, reply: HostReply) -> (r:
        Result<String, PluginError>) {
        let _ = news_argument(args, "query")?;
        Err(unexpected_reply())
    }
}

/// The capability of the news plugin: the key of the news service.
#[derive(Debug, Clone, PartialEq, Eq)]
pub struct NewsData {
    pub api_key: String,
}

impl PluginData for NewsData {
    /// The one operation is `get api key`.
    open spec fn supports(&self, operation: &str) -> bool {
        operation@ == "get api key"@
    }

    /// `get api key` is answered with the key, whatever the value; every
    /// other operation is refused.
    open spec fn answers(
        &self,
        operation: &str,
        value: Payload,
        reply: Result<Payload, PluginError>,
    ) -> bool {
        if operation@ == "get api key"@ {
            reply == Ok::<Payload, PluginError>(Payload::Text(self.api_key))
        } else {
            fails_with(
                reply,
                ErrorView::OperationNotSupported { plugin: "NewsAPI"@, operation: operation@ },
            )
        }
    }

    fn apply(&mut self, name: &str, value: Payload) -> (r: Result<Payload, PluginError>)
        ensures
            *final(self) == *old(self),
    {
        if same_text(name, "get api key") {
            Ok(Payload::Text(self.api_key.clone()))
        } else {
            Err(not_supported("NewsAPI", name))
        }
    }
}

/// The first and only item of a list, where it is a text.
pub open spec fn only_text(items: Seq<Payload>) -> Option<String> {
    if items.len() == 1 {
        match items[0] {
            Payload::Text(s) => Some(s),
            _ => None,
        }
    } else {
        None
    }
}

impl Decode for NewsData {
    /// The capability is configured by a record whose field `api key` is a
    /// text, or by a list of that one text.
    open spec fn decoded(p: Payload) -> Option<NewsData> {
        match p {
            Payload::Record(fields) => match field_of(fields@, "api key"@) {
                Some(Payload::Text(s)) => Some(NewsData { api_key: s }),
                _ => None,
            },
            Payload::List(items) => match only_text(items@) {
                Some(s) => Some(NewsData { api_key: s }),
                None => None,
            },
            _ => None,
        }
    }

    fn decode(p: &Payload) -> (r: Option<NewsData>) {
        match p {
            Payload::Record(_) => match p.field("api key") {
                Some(Payload::Text(s)) => Some(NewsData { api_key: s.clone() }),
                _ => None,
            },
            Payload::List(items) => {
                if items.len() == 1 {
                    match &items[0] {
                        Payload::Text(s) => Some(NewsData { api_key: s.clone() }),
                        _ => None,
                    }
                } else {
                    None
                }
            },
            _ => None,
        }
    }
}

impl Encode for NewsData {
    /// The capability is written as a record with the one field `api key`.
    open spec fn encodes(&self, p: Payload) -> bool {
        &&& p matches Payload::Record(fields)
        &&& fields@.len() == 1
        &&& fields@[0].0@ == "api key"@
        &&& fields@[0].1 == Payload::Text(self.api_key)
    }

    fn encode(&self) -> (p: Payload) {
        let mut fields: Vec<(String, Payload)> = Vec::new();
        fields.push(("api key".to_string(), Payload::Text(self.api_key.clone())));
        Payload::Record(fields)
    }
}

/// The capability that is read out of what a capability was written as is
/// that capability.
pub proof fn news_data_round_trip(data: NewsData, p: Payload)
    requires
        data.encodes(p),
    ensures
        NewsData::decoded(p) == Some(data),
{
    let fields = p->Record_0;
    assert(field_of(fields@, "api key"@) == Some(fields@[0].1));
}

/// The lifecycle hooks of the news plugin.
pub struct NewsCycle;

impl PluginCycle for NewsCycle {
    /// The plugin adds nothing to the prompt.
    open spec fn contributes(
        &self,
        before: &CommandContext,
        after: &CommandContext,
        previous_prompt: Option<&str>,
        r: Result<Step<Option<String>>, PluginError>,
    ) -> bool {
        r == Ok::<Step<Option<String>>, PluginError>(Step::Done(None)) && *after == *before
    }

    open spec fn continues(
        &self,
        before: &CommandContext,
        after: &CommandContext,
        previous_prompt: Option<&str>,
        reply: HostReply,
        r: Result<Option<String>, PluginError>,
    ) -> bool {
        r == Ok::<Option<String>, PluginError>(None) && *after == *before
    }

    open spec fn removes(
        &self,
        before: &CommandContext,
        after: &CommandContext,
        response: &LLMResponse,
        cmd_output: &str,
        previous_response: bool,
        r: Result<(), PluginError>,
    ) -> bool {
        r is Ok && *after == *before
    }

    /// The plugin offers its capability where `value` has the shape of one.
    open spec fn offers(&self, value: Payload) -> bool {
        NewsData::decoded(value).is_some()
    }

    /// The capability made is that of the key that `value` holds.
    open spec fn makes(&self, value: Payload, made: &Box<dyn PluginData>) -> bool {
        match NewsData::decoded(value) {
            Some(data) => same_capability(made, data),
            None => true,
        }
    }

    fn create_context(&self, context: &mut CommandContext, previous_prompt: Option<&str>) -> (r:
        Result<Step<Option<String>>, PluginError>)
    {
        Ok(Step::Done(None))
    }

    fn resume_context(
        &self,
        context: &mut CommandContext,
        previous_prompt: Option<&str>,
        reply: HostReply,
    ) -> (r: Result<Option<String>, PluginError>)
    {
        Ok(None)
    }

    fn apply_removed_response(
        &self,
        context: &mut CommandContext,
        response: &LLMResponse,
        cmd_output: &str,
        previous_response: bool,
    ) -> (r: Result<(), PluginError>)
    {
        Ok(())
    }

    /// The capability that `value` configures; none where `value` has not
    /// the shape of one.
    fn create_data(&self, value: &Payload) -> (r: Option<Box<dyn PluginData>>) {
        match NewsData::decode(value) {
            Some(data) => Some(Box::new(data)),
            None => None,
        }
    }
}

/// The command `news-search`, with the work of `NewsImpl` behind it.
pub fn search_command() -> (c: Command)
    ensures
        c.describes(
            "news-search"@,
            "Search for news articles."@,
            seq![("query"@, "The query to search for."@)],
        ),
        works_as(&c.run, NewsImpl),
{
    let mut args: Vec<(String, String)> = Vec::new();
    args.push(parameter("query", "The query to search for."));
    proof {
        assert(parameter_views(args@) =~= seq![("query"@, "The query to search for."@)]);
    }
    Command {
        name: "news-search".to_string(),
        purpose: "Search for news articles.".to_string(),
        args,
        run: Box::new(NewsImpl),
    }
}

/// The news plugin: it depends on `Browse`, has the hooks of `NewsCycle`,
/// and has the command `news-search` with the work of `NewsImpl` behind it.
pub fn create_news() -> (r: Plugin)
    ensures
        r.name@ == "NewsAPI"@,
        r.dependency_names() == seq!["Browse"@],
        cycles_as(&r.cycle, NewsCycle),
        r.commands@.len() == 1,
        r.commands@[0].describes(
            "news-search"@,
            "Search for news articles."@,
            seq![("query"@, "The query to search for."@)],
        ),
        works_as(&r.commands@[0].run, NewsImpl),
{
    let mut dependencies: Vec<String> = Vec::new();
    dependencies.push("Browse".to_string());
    proof {
        assert(views(dependencies@) =~= seq!["Browse"@]);
    }
    let mut commands: Vec<Command> = Vec::new();
    commands.push(search_command());
    Plugin { name: "NewsAPI".to_string(), dependencies, cycle: Box::new(NewsCycle), commands }
}

} // verus!
