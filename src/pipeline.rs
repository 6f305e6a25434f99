//! The fixed order in which every request passes the middleware layers.
use vstd::prelude::*;

verus! {

/// One layer of the request pipeline.
#[derive(Debug, Clone, Copy, PartialEq, Eq, Structural)]
pub enum Stage {
    /// Opens the request's logging scope.
    TraceContext,
    /// Attaches the correlation identifier to the response.
    RequestId,
    /// Writes the one completion record.
    Latency,
    /// The endpoint itself.
    Handler,
}

/// The layers from outermost to innermost.
pub open spec fn stage_order() -> Seq<Stage> {
    seq![Stage::TraceContext, Stage::RequestId, Stage::Latency, Stage::Handler]
}

/// The pipeline, outermost layer first: each layer calls the next and sees
/// its result, and the handler comes last.
pub fn pipeline() -> (r: Vec<Stage>)
    ensures
        r@ == stage_order(),
{
    vec![Stage::TraceContext, Stage::RequestId, Stage::Latency, Stage::Handler]
}

/// Every layer occurs once, and the handler is innermost.
pub proof fn lemma_pipeline_shape()
    ensures
        stage_order().len() == 4,
        stage_order().last() == Stage::Handler,
        forall|i: int, j: int|
            0 <= i < j < stage_order().len() ==> stage_order()[i] != stage_order()[j],
{
}

} // verus!
