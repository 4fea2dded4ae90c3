//! The record of a build: each command with the reply to it, and the count of
//! the shader objects that were allocated and released on the way.

use crate::command::{CommandView, ReplyView};
use vstd::prelude::*;

verus! {

/// One command and the reply that answered it.
pub ghost struct Exchange {
    pub command: CommandView,
    pub reply: ReplyView,
}

/// The commands of `log`, in order.
pub open spec fn commands_of(log: Seq<Exchange>) -> Seq<CommandView> {
    log.map_values(|exchange: Exchange| exchange.command)
}

/// 1 where `exchange` hands out `shader` as a new shader object, else 0.
pub open spec fn creates(exchange: Exchange, shader: u32) -> int {
    if exchange.command is CreateShader && exchange.reply.handle() == shader {
        1
    } else {
        0
    }
}

/// 1 where `exchange` releases `shader`, else 0.
pub open spec fn deletes(exchange: Exchange, shader: u32) -> int {
    if exchange.command == (CommandView::DeleteShader { shader }) {
        1
    } else {
        0
    }
}

/// How often `shader` is handed out as a new shader object in `log`.
pub open spec fn times_created(log: Seq<Exchange>, shader: u32) -> int
    decreases log.len(),
{
    if log.len() == 0 {
        0
    } else {
        creates(log.first(), shader) + times_created(log.drop_first(), shader)
    }
}

/// How often `shader` is released in `log`.
pub open spec fn times_deleted(log: Seq<Exchange>, shader: u32) -> int
    decreases log.len(),
{
    if log.len() == 0 {
        0
    } else {
        deletes(log.first(), shader) + times_deleted(log.drop_first(), shader)
    }
}

/// The counts of a log that begins with `head`.
pub proof fn lemma_counts_of_log(head: Exchange, rest: Seq<Exchange>, shader: u32)
    ensures
        times_created(seq![head] + rest, shader) == creates(head, shader) + times_created(
            rest,
            shader,
        ),
        times_deleted(seq![head] + rest, shader) == deletes(head, shader) + times_deleted(
            rest,
            shader,
        ),
{
    let log = seq![head] + rest;
    assert(log.first() == head);
    assert(log.drop_first() == rest);
}

/// Each exchange of a log is counted.
pub proof fn lemma_counted(log: Seq<Exchange>, at: int, shader: u32)
    requires
        0 <= at < log.len(),
    ensures
        times_created(log, shader) >= creates(log[at], shader),
        times_deleted(log, shader) >= deletes(log[at], shader),
        times_created(log, shader) >= 0,
        times_deleted(log, shader) >= 0,
    decreases log.len(),
{
    if log.len() > 1 {
        if at == 0 {
            lemma_counted(log.drop_first(), 0, shader);
        } else {
            lemma_counted(log.drop_first(), at - 1, shader);
        }
    } else {
        assert(times_created(log.drop_first(), shader) == 0);
        assert(times_deleted(log.drop_first(), shader) == 0);
    }
}

} // verus!
