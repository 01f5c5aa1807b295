//! A stepwise pipeline runtime: small single-purpose stages are linked into
//! chains, each stage is driven by its own worker, and the whole chain advances
//! one discrete iteration at a time.
//!
//! Adjacent stages talk over two conduits: a rendezvous conduit that carries
//! datagrams downstream and an unbounded conduit that carries acknowledgements
//! upstream. The library wires the conduits, decides what each worker does with
//! each datagram and keeps the runners' life cycle; the host program only
//! starts one thread per [`pipeline::Worker`] and repeats its `step`.
pub mod element_traits;
pub mod elements;
pub mod libav;
pub mod pipeline;
