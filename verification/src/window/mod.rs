pub mod blur;
