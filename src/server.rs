//! The plugin side of the remote protocol: each request is handed to the
//! plugin and its answer, or its flattened cause chain, is sent back.
use vstd::prelude::*;
use vstd::string::StringExecFns;
use crate::activation::{frequency_of, record_spec, ActivationStore};
use crate::item::{Action, Input, ListItem};
use crate::plugin::Plugin;
use crate::protocol::{joined, ErrorChain};
use crate::wire::{
    activation_response, message_of, ActivationResponse, CompletionRequest, CompletionResponse,
    QueryRequest, QueryResponse,
};

verus! {

/// Turns a plugin's answer into a reply; an error becomes its causes joined
/// by newlines.
pub fn map_result<T>(result: Result<T, ErrorChain>) -> (r: Result<T, String>)
    ensures
        match result {
            Ok(v) => r == Ok::<T, String>(v),
            Err(e) => r matches Err(m) && m@ == joined(e.causes@.map_values(|c: String| c@)),
        },
{
    match result {
        Ok(v) => Ok(v),
        Err(e) => Err(e.flatten()),
    }
}

/// The reply to an activation: the encoded actions, or the flattened error.
pub fn activation_reply(result: Result<Vec<Action>, ErrorChain>) -> (r: Result<
    ActivationResponse,
    String,
>)
    ensures
        match result {
            Ok(actions) => r matches Ok(resp) && resp.actions@.len() == actions@.len() && forall|
                i: int,
            |
                0 <= i < actions@.len() ==> resp.actions@[i] == message_of(#[trigger] actions@[i]),
            Err(e) => r matches Err(m) && m@ == joined(e.causes@.map_values(|c: String| c@)),
        },
{
    match map_result(result) {
        Ok(actions) => Ok(activation_response(actions)),
        Err(m) => Err(m),
    }
}

/// The reply to a query: the plugin's results, or the flattened error.
pub fn query_reply(result: Result<Vec<ListItem>, ErrorChain>) -> (r: Result<QueryResponse, String>)
    ensures
        match result {
            Ok(items) => r matches Ok(resp) && resp.items == items,
            Err(e) => r matches Err(m) && m@ == joined(e.causes@.map_values(|c: String| c@)),
        },
{
    match map_result(result) {
        Ok(items) => Ok(QueryResponse { items }),
        Err(m) => Err(m),
    }
}

/// The reply to a completion: the plugin's replacement input, if any, or the
/// flattened error.
pub fn completion_reply(result: Result<Option<Input>, ErrorChain>) -> (r: Result<
    CompletionResponse,
    String,
>)
    ensures
        match result {
            Ok(input) => r matches Ok(resp) && resp.input == input,
            Err(e) => r matches Err(m) && m@ == joined(e.causes@.map_values(|c: String| c@)),
        },
{
    match map_result(result) {
        Ok(input) => Ok(CompletionResponse { input }),
        Err(m) => Err(m),
    }
}

/// Answers a query request with the plugin's results.
pub fn serve_query<P: Plugin>(plugin: &P, request: QueryRequest) -> (r: Result<QueryResponse, String>) {
    query_reply(plugin.query(request.query))
}

/// Answers an activation: first records it in the frequency table at time
/// `now`, then asks the plugin for its actions. The record is kept whatever
/// the plugin answers; when it cannot be made the plugin is not asked and the
/// reply is an error.
pub fn serve_activate<P: Plugin>(
    plugin: &P,
    store: &mut ActivationStore,
    request: ListItem,
    now: i64,
) -> (r: Result<ActivationResponse, String>)
    requires
        old(store).wf(),
    ensures
        final(store).wf(),
        frequency_of(old(store)@, request.title@) < u64::MAX ==> final(store)@ == record_spec(
            old(store)@,
            request.title@,
            now,
        ),
        frequency_of(old(store)@, request.title@) >= u64::MAX ==> final(store)@ == old(store)@
            && r.is_err(),
{
    let title = request.title.clone();
    match store.record(title, now) {
        None => {
            let e = ErrorChain::msg(String::from_str("activation count is at its maximum"));
            Err(e.flatten())
        },
        Some(_) => activation_reply(plugin.activate(request)),
    }
}

/// Answers a completion request. A well-formed request carries its selected
/// item.
pub fn serve_complete<P: Plugin>(plugin: &P, request: CompletionRequest) -> (r: Result<
    CompletionResponse,
    String,
>)
    requires
        request.selected.is_some(),
{
    let (query, selected) = request.into_parts();
    completion_reply(plugin.complete(query, selected))
}

} // verus!
