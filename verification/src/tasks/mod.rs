pub mod reconcile;
