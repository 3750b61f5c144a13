//! Verified core of a synthetic-seismogram toolkit: the integer bookkeeping
//! of spectral convolution, the band limiter's averaging spans, the placement
//! of reflectors in a reflectivity model, and the driver that runs Monte Carlo
//! ensembles and batch sweeps in order.
use vstd::prelude::*;

pub mod spectral;
pub mod band;
pub mod layers;
pub mod ensemble;
