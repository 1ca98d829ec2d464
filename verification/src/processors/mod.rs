pub mod css_preprocess;
