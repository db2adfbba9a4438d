//! Prettier configuration, written as a CommonJS module.
use vstd::prelude::*;

verus! {

pub const TEMPLATE_CONTENT: &'static str = r#"module.exports = {
  printWidth: 100,
  tabWidth: 2,
  useTabs: false,
  semi: true,
  singleQuote: true,
  trailingComma: 'all',
  bracketSpacing: true,
  arrowParens: 'always',
  endOfLine: 'lf',
};
"#;

} // verus!
