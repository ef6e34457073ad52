//! Pure numeric heuristics for a host video-playback controller: a playback
//! speed policy, an advertisement detector driven by timestamp anomalies, an
//! audio-magnitude summary, a volume-fade step size, and a low-audio segment
//! classifier. Every function is a stateless mapping from its arguments to a
//! single value; the host owns all iteration, I/O and randomness.

pub mod heuristics;
pub mod scalar;
