//! ESLint configuration for a plain JavaScript project.
use vstd::prelude::*;

verus! {

pub const TEMPLATE_CONTENT: &'static str = r#"{
  "root": true,
  "env": {
    "browser": true,
    "node": true,
    "es2021": true
  },
  "parserOptions": {
    "ecmaVersion": "latest",
    "sourceType": "module"
  },
  "extends": ["eslint:recommended"],
  "rules": {}
}
"#;

} // verus!
