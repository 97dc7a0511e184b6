//! Input-shaping layer of the HCM web calculator bindings: the parsing of
//! option strings, the shape checks on tabular inputs, and the small pieces
//! of bookkeeping the bindings keep beside the analysis engine.
pub mod grid;
pub mod text;
pub mod freeway;
pub mod merge_diverge;
pub mod reliability;
pub mod weaving;
pub mod managed_lanes;
pub mod pedbike;
pub mod intersections;
pub mod signalized;
pub mod urban;
pub mod options;
pub mod mixed_flow;
