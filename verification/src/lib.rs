//! Spectral analysis and multi-slit diffraction, verified.
//!
//! The engine is written once over an abstract number type (see
//! [`Scalar`]); every index computation is proved in bounds and every
//! result is stated as a function of the operations of that type.

pub mod colour;
pub mod complex;
pub mod diffraction;
pub mod em_env;
pub mod fft;
pub mod lambda_zip;
pub mod pow2;
pub mod repeat_until;
pub mod scalar;
pub mod scene;
pub mod spectrum;
pub mod ui_wall;
pub mod util;
pub mod vector;
pub mod wave_data;

pub use crate::colour::{wave_length_colour, Colour};
pub use crate::complex::Complex;
pub use crate::diffraction::{Slit, Wave};
pub use crate::em_env::EMEnv;
pub use crate::fft::{compute_nth_roots, dft, fft_iterative_v2, TransformError, WCache};
pub use crate::lambda_zip::LambdaZip;
pub use crate::pow2::{next_power_of_2, power_of_2};
pub use crate::repeat_until::RepeatUntil;
pub use crate::scalar::Scalar;
pub use crate::scene::{get_colour, Highlight, Scene, SceneSlit, SceneUIRef, Wall};
pub use crate::spectrum::{dft_analysis, form_plot};
pub use crate::ui_wall::{snap_point, UIWall};
pub use crate::vector::{Vector2, Vector3};
pub use crate::wave_data::{fill, fill_format, WaveData};
