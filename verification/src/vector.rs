pub mod defn;
