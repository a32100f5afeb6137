use vstd::prelude::*;
use std::ops::Deref;
use crate::decimal::{decimal, decimal_spec};

verus! {

/// Either one element or a sequence of elements of the same type.
#[derive(Clone, Debug, PartialEq)]
pub enum MaybeBatched<T> {
    /// A single element.
    Single(T),
    /// A sequence of elements.
    Batched(Vec<T>),
}

impl<T> MaybeBatched<T> {
    /// The elements carried, in order: one for `Single`.
    pub open spec fn items(&self) -> Seq<T> {
        match self {
            MaybeBatched::Single(x) => seq![*x],
            MaybeBatched::Batched(v) => v@,
        }
    }

    /// Whether this is the `Batched` arm.
    pub fn is_batched(&self) -> (r: bool)
        ensures
            r == (self is Batched),
    {
        match self {
            MaybeBatched::Single(_) => false,
            MaybeBatched::Batched(_) => true,
        }
    }

    /// Number of elements carried.
    pub fn len(&self) -> (r: usize)
        ensures
            r == self.items().len(),
    {
        match self {
            MaybeBatched::Single(_) => 1,
            MaybeBatched::Batched(v) => v.len(),
        }
    }
}

/// Token accounting of one call: the prompt's tokens and the total.
#[derive(Clone, Copy, Debug, PartialEq, Eq, Structural)]
pub struct Usage {
    /// Tokens of the prompt after tokenization.
    pub prompt_tokens: usize,
    /// Tokens in total, the prompt's included.
    pub total_tokens: usize,
}

impl Usage {
    /// The prompt never counts more tokens than the total.
    pub open spec fn wf(&self) -> bool {
        self.prompt_tokens <= self.total_tokens
    }

    /// Usage with the given prompt and total counts.
    pub fn new(prompt_tokens: usize, total_tokens: usize) -> (r: Self)
        requires
            prompt_tokens <= total_tokens,
        ensures
            r.prompt_tokens == prompt_tokens,
            r.total_tokens == total_tokens,
            r.wf(),
    {
        Usage { prompt_tokens, total_tokens }
    }

    /// Usage where the prompt is the whole: both counts are `num_tokens`.
    pub fn same(num_tokens: usize) -> (r: Self)
        ensures
            r.prompt_tokens == num_tokens,
            r.total_tokens == num_tokens,
            r.wf(),
    {
        Usage { prompt_tokens: num_tokens, total_tokens: num_tokens }
    }

    pub open spec fn describe_spec(&self) -> Seq<char> {
        "Usage(prompt_tokens="@ + decimal_spec(self.prompt_tokens as nat) + ", total_tokens="@
            + decimal_spec(self.total_tokens as nat) + ")"@
    }

    /// `Usage(prompt_tokens=<p>, total_tokens=<t>)`, the counts in decimal.
    pub fn describe(&self) -> (r: String)
        ensures
            r@ == self.describe_spec(),
    {
        let p = decimal(self.prompt_tokens as u64);
        let t = decimal(self.total_tokens as u64);
        String::from_str("Usage(prompt_tokens=").concat(p.deref()).concat(", total_tokens=").concat(t.deref()).concat(
            ")",
        )
    }

    /// The usage a backend reports through optional counts: none where it
    /// gives neither; a prompt alone counts as the total; a total alone has
    /// an empty prompt.
    pub fn from_counts(prompt_tokens: Option<usize>, total_tokens: Option<usize>) -> (r: Option<Usage>)
        requires
            prompt_tokens is Some && total_tokens is Some ==> prompt_tokens->Some_0 <= total_tokens->Some_0,
        ensures
            prompt_tokens is None && total_tokens is None ==> r is None,
            prompt_tokens is Some && total_tokens is None ==> r == Some(
                Usage { prompt_tokens: prompt_tokens->Some_0, total_tokens: prompt_tokens->Some_0 },
            ),
            prompt_tokens is None && total_tokens is Some ==> r == Some(
                Usage { prompt_tokens: 0, total_tokens: total_tokens->Some_0 },
            ),
            prompt_tokens is Some && total_tokens is Some ==> r == Some(
                Usage { prompt_tokens: prompt_tokens->Some_0, total_tokens: total_tokens->Some_0 },
            ),
            r is Some ==> r->Some_0.wf(),
    {
        match (prompt_tokens, total_tokens) {
            (None, None) => None,
            (Some(prompt), None) => Some(Usage::same(prompt)),
            (None, Some(total)) => Some(Usage::new(0, total)),
            (Some(prompt), Some(total)) => Some(Usage::new(prompt, total)),
        }
    }
}

impl Default for Usage {
    fn default() -> (r: Self)
        ensures
            r.prompt_tokens == 0,
            r.total_tokens == 0,
    {
        Usage { prompt_tokens: 0, total_tokens: 0 }
    }
}

/// A request as handed to the backend: the main input and its tuning parameters.
#[derive(Clone, Debug)]
pub struct EndpointRequest<I, P> {
    /// Main input to run through the inference engine.
    pub inputs: I,
    /// Parameters tuning the inference engine.
    pub parameters: P,
}

impl<I, P> EndpointRequest<I, P> {
    pub fn new(inputs: I, parameters: P) -> (r: Self)
        ensures
            r.inputs == inputs,
            r.parameters == parameters,
    {
        EndpointRequest { inputs, parameters }
    }
}

/// A response from the backend: the output and, optionally, its resource usage.
#[derive(Clone, Debug)]
pub struct EndpointResponse<O, U> {
    /// What the call produced.
    pub output: O,
    /// Resource usage of the call, where the backend reported it.
    pub usage: Option<U>,
}

impl<O, U> EndpointResponse<O, U> {
    pub fn new(output: O, usage: Option<U>) -> (r: Self)
        ensures
            r.output == output,
            r.usage == usage,
    {
        EndpointResponse { output, usage }
    }
}

} // verus!
