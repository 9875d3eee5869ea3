//! The requests that an agent makes of the editor, each under its ACP
//! method.

use crate::json::{Json, JsonView};
use crate::jsonrpc::{Message, MessageView, RequestIdView};
use crate::pending::{PendingResponses, SendError};
use vstd::prelude::*;

verus! {

/// The agent's side of its connection to the editor. `T` is what waits for
/// a response.
#[derive(Debug)]
pub struct AcpClient<T> {
    /// The requests that wait for the editor's response.
    pub cx: PendingResponses<T>,
}

/// The request that goes out under `method` with `request` as its
/// parameters, from a connection whose next identifier is `next_id`.
pub open spec fn outgoing_request(next_id: i64, method: Seq<char>, request: JsonView) -> MessageView {
    MessageView::Request {
        id: RequestIdView::Number(next_id as int),
        method,
        params: Some(request),
    }
}

impl<T> AcpClient<T> {
    /// The client of a connection.
    pub fn new(cx: PendingResponses<T>) -> (r: Self)
        ensures
            r.cx == cx,
    {
        AcpClient { cx }
    }

    /// The request under `method`, for whose response `waiter` waits from
    /// now on; refused where the connection has used up its identifiers.
    fn send(&mut self, method: &str, request: Json, waiter: T) -> (r: Result<Message, SendError>)
        requires
            old(self).cx.wf(),
        ensures
            final(self).cx.wf(),
            r is Ok <==> old(self).cx.next_id < i64::MAX,
            r matches Ok(m) ==> m@ == outgoing_request(old(self).cx.next_id, method@, request@)
                && final(self).cx.waiter_of(RequestIdView::Number(old(self).cx.next_id as int))
                == Some(waiter),
            r is Err ==> final(self).cx.waiting@ == old(self).cx.waiting@,
    {
        self.cx.send_request(String::from_str(method), Some(request), waiter)
    }

    /// Asks the user to permit a tool call.
    pub fn request_permission(&mut self, request: Json, waiter: T) -> (r: Result<Message, SendError>)
        requires
            old(self).cx.wf(),
        ensures
            final(self).cx.wf(),
            r is Ok <==> old(self).cx.next_id < i64::MAX,
            r matches Ok(m) ==> m@ == outgoing_request(
                old(self).cx.next_id,
                "session/request_permission"@,
                request@,
            ) && final(self).cx.waiter_of(RequestIdView::Number(old(self).cx.next_id as int))
                == Some(waiter),
            r is Err ==> final(self).cx.waiting@ == old(self).cx.waiting@,
    {
        self.send("session/request_permission", request, waiter)
    }

    /// Writes a text file in the client's file system.
    pub fn write_text_file(&mut self, request: Json, waiter: T) -> (r: Result<Message, SendError>)
        requires
            old(self).cx.wf(),
        ensures
            final(self).cx.wf(),
            r is Ok <==> old(self).cx.next_id < i64::MAX,
            r matches Ok(m) ==> m@ == outgoing_request(
                old(self).cx.next_id,
                "fs/write_text_file"@,
                request@,
            ) && final(self).cx.waiter_of(RequestIdView::Number(old(self).cx.next_id as int))
                == Some(waiter),
            r is Err ==> final(self).cx.waiting@ == old(self).cx.waiting@,
    {
        self.send("fs/write_text_file", request, waiter)
    }

    /// Reads a text file from the client's file system.
    pub fn read_text_file(&mut self, request: Json, waiter: T) -> (r: Result<Message, SendError>)
        requires
            old(self).cx.wf(),
        ensures
            final(self).cx.wf(),
            r is Ok <==> old(self).cx.next_id < i64::MAX,
            r matches Ok(m) ==> m@ == outgoing_request(
                old(self).cx.next_id,
                "fs/read_text_file"@,
                request@,
            ) && final(self).cx.waiter_of(RequestIdView::Number(old(self).cx.next_id as int))
                == Some(waiter),
            r is Err ==> final(self).cx.waiting@ == old(self).cx.waiting@,
    {
        self.send("fs/read_text_file", request, waiter)
    }

    /// Runs a command in a new terminal.
    pub fn create_terminal(&mut self, request: Json, waiter: T) -> (r: Result<Message, SendError>)
        requires
            old(self).cx.wf(),
        ensures
            final(self).cx.wf(),
            r is Ok <==> old(self).cx.next_id < i64::MAX,
            r matches Ok(m) ==> m@ == outgoing_request(
                old(self).cx.next_id,
                "terminal/create"@,
                request@,
            ) && final(self).cx.waiter_of(RequestIdView::Number(old(self).cx.next_id as int))
                == Some(waiter),
            r is Err ==> final(self).cx.waiting@ == old(self).cx.waiting@,
    {
        self.send("terminal/create", request, waiter)
    }

    /// Asks for the output of a terminal and its exit status.
    pub fn terminal_output(&mut self, request: Json, waiter: T) -> (r: Result<Message, SendError>)
        requires
            old(self).cx.wf(),
        ensures
            final(self).cx.wf(),
            r is Ok <==> old(self).cx.next_id < i64::MAX,
            r matches Ok(m) ==> m@ == outgoing_request(
                old(self).cx.next_id,
                "terminal/output"@,
                request@,
            ) && final(self).cx.waiter_of(RequestIdView::Number(old(self).cx.next_id as int))
                == Some(waiter),
            r is Err ==> final(self).cx.waiting@ == old(self).cx.waiting@,
    {
        self.send("terminal/output", request, waiter)
    }

    /// Releases a terminal.
    pub fn release_terminal(&mut self, request: Json, waiter: T) -> (r: Result<Message, SendError>)
        requires
            old(self).cx.wf(),
        ensures
            final(self).cx.wf(),
            r is Ok <==> old(self).cx.next_id < i64::MAX,
            r matches Ok(m) ==> m@ == outgoing_request(
                old(self).cx.next_id,
                "terminal/release"@,
                request@,
            ) && final(self).cx.waiter_of(RequestIdView::Number(old(self).cx.next_id as int))
                == Some(waiter),
            r is Err ==> final(self).cx.waiting@ == old(self).cx.waiting@,
    {
        self.send("terminal/release", request, waiter)
    }

    /// Waits for the command of a terminal to exit.
    pub fn wait_for_terminal_exit(&mut self, request: Json, waiter: T) -> (r: Result<Message, SendError>)
        requires
            old(self).cx.wf(),
        ensures
            final(self).cx.wf(),
            r is Ok <==> old(self).cx.next_id < i64::MAX,
            r matches Ok(m) ==> m@ == outgoing_request(
                old(self).cx.next_id,
                "terminal/wait_for_exit"@,
                request@,
            ) && final(self).cx.waiter_of(RequestIdView::Number(old(self).cx.next_id as int))
                == Some(waiter),
            r is Err ==> final(self).cx.waiting@ == old(self).cx.waiting@,
    {
        self.send("terminal/wait_for_exit", request, waiter)
    }

    /// Kills the command of a terminal without releasing it.
    pub fn kill_terminal_command(&mut self, request: Json, waiter: T) -> (r: Result<Message, SendError>)
        requires
            old(self).cx.wf(),
        ensures
            final(self).cx.wf(),
            r is Ok <==> old(self).cx.next_id < i64::MAX,
            r matches Ok(m) ==> m@ == outgoing_request(
                old(self).cx.next_id,
                "terminal/kill"@,
                request@,
            ) && final(self).cx.waiter_of(RequestIdView::Number(old(self).cx.next_id as int))
                == Some(waiter),
            r is Err ==> final(self).cx.waiting@ == old(self).cx.waiting@,
    {
        self.send("terminal/kill", request, waiter)
    }

    /// The notification that tells the editor of the progress of a session.
    /// Nothing waits for an answer.
    pub fn session_notification(&self, notification: Json) -> (r: Message)
        ensures
            r@ == (MessageView::Notification {
                method: "session/update"@,
                params: Some(notification@),
            }),
    {
        Message::Notification {
            method: String::from_str("session/update"),
            params: Some(notification),
        }
    }
}

} // verus!
