//! A heterogeneous block storage and transfer engine.
//!
//! KV-cache blocks are staged across storage tiers (pageable host memory,
//! page-locked host memory, GPU device memory, disk, and remote fabric
//! regions) and moved between tiers by the transport that fits the tier
//! pair: plain byte copy, asynchronous GPU copy, a scatter/gather GPU
//! kernel for non-contiguous layouts, or a fabric descriptor post.
//!
//! Each storage region is modelled with its byte contents held in plain
//! host memory, so every copy path is executable and checkable; the tier
//! tag, address arithmetic, strategy resolution, batch validation and
//! completion signalling follow the semantics of the corresponding
//! device and fabric transports.

pub mod context;
pub mod cuda;
pub mod nixl;
pub mod storage;
pub mod strategy;
pub mod transfer;
pub mod view;
