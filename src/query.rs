//! Queries inside a command encoder: pipeline statistics, timestamps, and the
//! resolution of query results into a buffer.
use vstd::prelude::*;

use crate::device::{encoder_extended, open_encoder, buffer_of, query_set_of, Device, ReplayError, QUERY_RESOLVE_STRIDE};
use crate::hub::{RawCommand, ResourceKind, RESULT_BITS_64, RESULT_WAIT, RESULT_WITH_AVAILABILITY};
use crate::lock_order::Token;
use crate::id::{BufferId, CommandEncoderId, QuerySetId};
use crate::trace::BUFFER_USAGE_COPY_DST;

verus! {

/// The flags of a query resolution: wait for the results, add an
/// availability word to each, and write 64-bit values.
pub open spec fn resolve_flags() -> u32 {
    RESULT_WAIT | RESULT_WITH_AVAILABILITY | RESULT_BITS_64
}

/// What resolving `count` queries from `first` of `query_set` into `dst` at
/// `offset` records: a barrier on the buffer, then the copy.
pub open spec fn resolve_commands(
    query_set: QuerySetId,
    first: u32,
    count: u32,
    dst: BufferId,
    offset: u64,
) -> Seq<RawCommand> {
    seq![
        RawCommand::TransferBarrier { buffer: dst },
        RawCommand::CopyQueryPoolResults {
            query_set,
            first,
            count,
            buffer: dst,
            offset,
            stride: QUERY_RESOLVE_STRIDE,
            flags: resolve_flags(),
        },
    ]
}

impl Device {
    /// Resets the query slot `query_index` of `query_set` and starts collecting
    /// pipeline statistics into it.
    pub fn command_encoder_begin_pipeline_statistics_query(
        &mut self,
        command_encoder_id: CommandEncoderId,
        query_set: QuerySetId,
        query_index: u32,
    ) -> (r: Result<(), ReplayError>)
        requires
            old(self).wf(),
        ensures
            final(self).wf(),
            r is Ok <==> open_encoder(&old(self).hub_spec(), command_encoder_id@) && query_set_of(
                &old(self).hub_spec(),
                query_set@,
            ) is Some,
            r is Ok ==> encoder_extended(
                old(self),
                final(self),
                command_encoder_id@,
                seq![
                    RawCommand::ResetQueryPool { query_set, first: query_index, count: 1 },
                    RawCommand::BeginQuery { query_set, index: query_index },
                ],
                Seq::empty(),
            ),
            r is Err ==> r == Err::<(), ReplayError>(ReplayError::InvalidHandle) && *final(self) == *old(self),
    {
        let token = Token::root().enter(ResourceKind::CommandBuffer);
        let open = self.is_open_encoder(command_encoder_id, &token);
        let token = token.enter(ResourceKind::QuerySet);
        if !open || !self.is_query_set(query_set, &token) {
            return Err(ReplayError::InvalidHandle);
        }
        let cmds = vec![
            RawCommand::ResetQueryPool { query_set, first: query_index, count: 1 },
            RawCommand::BeginQuery { query_set, index: query_index },
        ];
        self.record_raw(command_encoder_id, cmds, Vec::new(), false);
        Ok(())
    }

    /// Stops collecting pipeline statistics into the slot `query_index`.
    pub fn command_encoder_end_pipeline_statistics_query(
        &mut self,
        command_encoder_id: CommandEncoderId,
        query_set: QuerySetId,
        query_index: u32,
    ) -> (r: Result<(), ReplayError>)
        requires
            old(self).wf(),
        ensures
            final(self).wf(),
            r is Ok <==> open_encoder(&old(self).hub_spec(), command_encoder_id@) && query_set_of(
                &old(self).hub_spec(),
                query_set@,
            ) is Some,
            r is Ok ==> encoder_extended(
                old(self),
                final(self),
                command_encoder_id@,
                seq![RawCommand::EndQuery { query_set, index: query_index }],
                Seq::empty(),
            ),
            r is Err ==> r == Err::<(), ReplayError>(ReplayError::InvalidHandle) && *final(self) == *old(self),
    {
        let token = Token::root().enter(ResourceKind::CommandBuffer);
        let open = self.is_open_encoder(command_encoder_id, &token);
        let token = token.enter(ResourceKind::QuerySet);
        if !open || !self.is_query_set(query_set, &token) {
            return Err(ReplayError::InvalidHandle);
        }
        let cmds = vec![RawCommand::EndQuery { query_set, index: query_index }];
        assert(cmds@ =~= seq![RawCommand::EndQuery { query_set, index: query_index }]);
        self.record_raw(command_encoder_id, cmds, Vec::new(), false);
        Ok(())
    }

    /// Records a timestamp taken at `pipeline_stage` into the slot `query_index`.
    pub fn command_encoder_write_timestamp(
        &mut self,
        command_encoder_id: CommandEncoderId,
        query_set: QuerySetId,
        query_index: u32,
        pipeline_stage: u32,
    ) -> (r: Result<(), ReplayError>)
        requires
            old(self).wf(),
        ensures
            final(self).wf(),
            r is Ok <==> open_encoder(&old(self).hub_spec(), command_encoder_id@) && query_set_of(
                &old(self).hub_spec(),
                query_set@,
            ) is Some,
            r is Ok ==> encoder_extended(
                old(self),
                final(self),
                command_encoder_id@,
                seq![RawCommand::WriteTimestamp { stage: pipeline_stage, query_set, index: query_index }],
                Seq::empty(),
            ),
            r is Err ==> r == Err::<(), ReplayError>(ReplayError::InvalidHandle) && *final(self) == *old(self),
    {
        let token = Token::root().enter(ResourceKind::CommandBuffer);
        let open = self.is_open_encoder(command_encoder_id, &token);
        let token = token.enter(ResourceKind::QuerySet);
        if !open || !self.is_query_set(query_set, &token) {
            return Err(ReplayError::InvalidHandle);
        }
        let cmds = vec![RawCommand::WriteTimestamp { stage: pipeline_stage, query_set, index: query_index }];
        assert(cmds@ =~= seq![RawCommand::WriteTimestamp { stage: pipeline_stage, query_set, index: query_index }]);
        self.record_raw(command_encoder_id, cmds, Vec::new(), false);
        Ok(())
    }

    /// Copies the results of `query_count` queries from `first_query` into
    /// `destination` at `destination_offset`, after a barrier that orders the
    /// buffer's earlier uses before the copy. A destination without
    /// copy-destination usage is refused before anything is recorded.
    /// The barrier is recorded on every resolve, and afterwards the encoder
    /// holds the destination in copy-destination use.
    pub fn command_encoder_resolve_query_set(
        &mut self,
        command_encoder_id: CommandEncoderId,
        query_set: QuerySetId,
        first_query: u32,
        query_count: u32,
        destination: BufferId,
        destination_offset: u64,
    ) -> (r: Result<(), ReplayError>)
        requires
            old(self).wf(),
        ensures
            final(self).wf(),
            r is Ok <==> (open_encoder(&old(self).hub_spec(), command_encoder_id@)
                && query_set_of(&old(self).hub_spec(), query_set@) is Some
                && (buffer_of(&old(self).hub_spec(), destination@) matches Some(b)
                && b.usage & BUFFER_USAGE_COPY_DST != 0)),
            r == Err::<(), ReplayError>(ReplayError::InvalidHandle) <==> !open_encoder(&old(self).hub_spec(), command_encoder_id@)
                || query_set_of(&old(self).hub_spec(), query_set@) is None
                || buffer_of(&old(self).hub_spec(), destination@) is None,
            r == Err::<(), ReplayError>(ReplayError::PreconditionFailure) <==> (open_encoder(
                &old(self).hub_spec(),
                command_encoder_id@,
            ) && query_set_of(&old(self).hub_spec(), query_set@) is Some && (buffer_of(
                &old(self).hub_spec(),
                destination@,
            ) matches Some(b) && b.usage & BUFFER_USAGE_COPY_DST == 0)),
            r is Ok ==> encoder_extended(
                old(self),
                final(self),
                command_encoder_id@,
                resolve_commands(query_set, first_query, query_count, destination, destination_offset),
                seq![destination],
            ),
            r is Err ==> *final(self) == *old(self),
    {
        let token = Token::root().enter(ResourceKind::CommandBuffer);
        let open = self.is_open_encoder(command_encoder_id, &token);
        let token = token.enter(ResourceKind::QuerySet);
        if !open || !self.is_query_set(query_set, &token) {
            return Err(ReplayError::InvalidHandle);
        }
        let token = token.enter(ResourceKind::Buffer);
        let usage = match self.buffer_usage(destination, &token) {
            Some(u) => u,
            None => return Err(ReplayError::InvalidHandle),
        };
        if usage & BUFFER_USAGE_COPY_DST == 0 {
            return Err(ReplayError::PreconditionFailure);
        }
        let cmds = vec![
            RawCommand::TransferBarrier { buffer: destination },
            RawCommand::CopyQueryPoolResults {
                query_set,
                first: first_query,
                count: query_count,
                buffer: destination,
                offset: destination_offset,
                stride: QUERY_RESOLVE_STRIDE,
                flags: RESULT_WAIT | RESULT_WITH_AVAILABILITY | RESULT_BITS_64,
            },
        ];
        let uses = vec![destination];
        assert(uses@ =~= seq![destination]);
        self.record_raw(command_encoder_id, cmds, uses, false);
        Ok(())
    }
}

} // verus!
