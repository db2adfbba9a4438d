//! ESLint configuration for a TypeScript project.
use vstd::prelude::*;

verus! {

pub const TEMPLATE_CONTENT: &'static str = r#"{
  "root": true,
  "env": {
    "browser": true,
    "node": true,
    "es2021": true
  },
  "parser": "@typescript-eslint/parser",
  "parserOptions": {
    "ecmaVersion": "latest",
    "sourceType": "module"
  },
  "plugins": ["@typescript-eslint"],
  "extends": [
    "eslint:recommended",
    "plugin:@typescript-eslint/recommended"
  ],
  "rules": {}
}
"#;

} // verus!
